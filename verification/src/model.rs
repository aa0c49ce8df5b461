//! The typed records that a reply is turned into, and their models.
//!
//! Each record has a view in which every piece of text is a `Seq<char>` and
//! every list a `Seq`; the contracts of the grammars speak of these views.

use vstd::prelude::*;

verus! {

/// The model of an optional piece of text.
pub open spec fn text_of(o: Option<String>) -> Option<Seq<char>> {
    match o {
        Some(s) => Some(s@),
        None => None,
    }
}

/// The model of a list of pieces of text.
pub open spec fn texts_of(v: Seq<String>) -> Seq<Seq<char>> {
    v.map_values(|s: String| s@)
}

/// A key and its value, both as written in the reply.
#[derive(Debug, Clone)]
pub struct KVLine {
    pub key: String,
    pub value: String,
}

/// The model of a `KVLine`.
pub struct KVLineView {
    pub key: Seq<char>,
    pub value: Seq<char>,
}

impl View for KVLine {
    type V = KVLineView;

    open spec fn view(&self) -> KVLineView {
        KVLineView { key: self.key@, value: self.value@ }
    }
}

/// The models of a list of key/value pairs.
pub open spec fn pairs_of(v: Seq<KVLine>) -> Seq<KVLineView> {
    v.map_values(|p: KVLine| p@)
}

/// Firmware version, with the reply lines it was taken from.
#[derive(Debug)]
pub struct VersionInfo {
    pub rtthread_version: String,
    pub build: String,
    pub copyright: String,
}

/// The model of a `VersionInfo`.
pub struct VersionInfoView {
    pub rtthread_version: Seq<char>,
    pub build: Seq<char>,
    pub copyright: Seq<char>,
}

impl View for VersionInfo {
    type V = VersionInfoView;

    open spec fn view(&self) -> VersionInfoView {
        VersionInfoView {
            rtthread_version: self.rtthread_version@,
            build: self.build@,
            copyright: self.copyright@,
        }
    }
}

/// Heap usage. A figure that the reply does not give is zero.
#[derive(Debug, Clone, Copy, PartialEq, Eq, Structural)]
pub struct Free {
    pub total: i64,
    pub used: i64,
    pub maximum: i64,
}

/// One row of the thread table.
#[derive(Debug)]
pub struct ThreadRow {
    pub thread: String,
    pub pri: Option<i32>,
    pub status: String,
    pub sp: Option<String>,
    pub stack: Option<String>,
    pub size: Option<String>,
    pub max: Option<String>,
    pub used: Option<i32>,
    pub left: Option<i32>,
    pub tick: Option<i32>,
    pub error: Option<i32>,
}

/// The model of a `ThreadRow`.
pub struct ThreadRowView {
    pub thread: Seq<char>,
    pub pri: Option<i32>,
    pub status: Seq<char>,
    pub sp: Option<Seq<char>>,
    pub stack: Option<Seq<char>>,
    pub size: Option<Seq<char>>,
    pub max: Option<Seq<char>>,
    pub used: Option<i32>,
    pub left: Option<i32>,
    pub tick: Option<i32>,
    pub error: Option<i32>,
}

impl View for ThreadRow {
    type V = ThreadRowView;

    open spec fn view(&self) -> ThreadRowView {
        ThreadRowView {
            thread: self.thread@,
            pri: self.pri,
            status: self.status@,
            sp: text_of(self.sp),
            stack: text_of(self.stack),
            size: text_of(self.size),
            max: text_of(self.max),
            used: self.used,
            left: self.left,
            tick: self.tick,
            error: self.error,
        }
    }
}

/// The models of a list of thread rows.
pub open spec fn rows_of(v: Seq<ThreadRow>) -> Seq<ThreadRowView> {
    v.map_values(|r: ThreadRow| r@)
}

/// Operating-time counters.
#[derive(Debug)]
pub struct WorkTime {
    pub start_date: Option<String>,
    pub end_date: Option<String>,
    pub current_date: Option<String>,
    pub total_startup_time: Option<String>,
    pub current_startup_time: Option<String>,
    pub onkey_time: Option<String>,
    pub decode_times: Option<i64>,
    pub days_available: Option<i64>,
}

/// The model of a `WorkTime`.
pub struct WorkTimeView {
    pub start_date: Option<Seq<char>>,
    pub end_date: Option<Seq<char>>,
    pub current_date: Option<Seq<char>>,
    pub total_startup_time: Option<Seq<char>>,
    pub current_startup_time: Option<Seq<char>>,
    pub onkey_time: Option<Seq<char>>,
    pub decode_times: Option<i64>,
    pub days_available: Option<i64>,
}

impl View for WorkTime {
    type V = WorkTimeView;

    open spec fn view(&self) -> WorkTimeView {
        WorkTimeView {
            start_date: text_of(self.start_date),
            end_date: text_of(self.end_date),
            current_date: text_of(self.current_date),
            total_startup_time: text_of(self.total_startup_time),
            current_startup_time: text_of(self.current_startup_time),
            onkey_time: text_of(self.onkey_time),
            decode_times: self.decode_times,
            days_available: self.days_available,
        }
    }
}

/// A word of bit flags: the mask as written, and the labels after it.
#[derive(Debug)]
pub struct FlagWord {
    pub raw: String,
    pub labels: String,
}

/// The model of a `FlagWord`.
pub struct FlagWordView {
    pub raw: Seq<char>,
    pub labels: Seq<char>,
}

impl View for FlagWord {
    type V = FlagWordView;

    open spec fn view(&self) -> FlagWordView {
        FlagWordView { raw: self.raw@, labels: self.labels@ }
    }
}

/// The key/value lines of a status reply.
#[derive(Debug)]
pub struct Status {
    pub lines: Vec<KVLine>,
}

/// The model of a `Status`.
pub struct StatusView {
    pub lines: Seq<KVLineView>,
}

impl View for Status {
    type V = StatusView;

    open spec fn view(&self) -> StatusView {
        StatusView { lines: pairs_of(self.lines@) }
    }
}

/// Sub-states of the machine, and the tokens that were not understood.
#[derive(Debug)]
pub struct SubStatus {
    pub laser_sub_state: Option<i64>,
    pub feeder_state: Option<i64>,
    pub gas_state: Option<i64>,
    pub extras: Vec<String>,
}

/// The model of a `SubStatus`.
pub struct SubStatusView {
    pub laser_sub_state: Option<i64>,
    pub feeder_state: Option<i64>,
    pub gas_state: Option<i64>,
    pub extras: Seq<Seq<char>>,
}

impl View for SubStatus {
    type V = SubStatusView;

    open spec fn view(&self) -> SubStatusView {
        SubStatusView {
            laser_sub_state: self.laser_sub_state,
            feeder_state: self.feeder_state,
            gas_state: self.gas_state,
            extras: texts_of(self.extras@),
        }
    }
}

/// Settings of a network interface.
#[derive(Debug)]
pub struct IfConfig {
    pub iface: Option<String>,
    pub mtu: Option<i64>,
    pub mac: Option<String>,
    pub flags: Option<String>,
    pub ip_addr: Option<String>,
    pub gw_addr: Option<String>,
    pub netmask: Option<String>,
    pub dns0: Option<String>,
    pub dns1: Option<String>,
}

/// The model of an `IfConfig`.
pub struct IfConfigView {
    pub iface: Option<Seq<char>>,
    pub mtu: Option<i64>,
    pub mac: Option<Seq<char>>,
    pub flags: Option<Seq<char>>,
    pub ip_addr: Option<Seq<char>>,
    pub gw_addr: Option<Seq<char>>,
    pub netmask: Option<Seq<char>>,
    pub dns0: Option<Seq<char>>,
    pub dns1: Option<Seq<char>>,
}

impl View for IfConfig {
    type V = IfConfigView;

    open spec fn view(&self) -> IfConfigView {
        IfConfigView {
            iface: text_of(self.iface),
            mtu: self.mtu,
            mac: text_of(self.mac),
            flags: text_of(self.flags),
            ip_addr: text_of(self.ip_addr),
            gw_addr: text_of(self.gw_addr),
            netmask: text_of(self.netmask),
            dns0: text_of(self.dns0),
            dns1: text_of(self.dns1),
        }
    }
}

/// Name servers of a network interface.
#[derive(Debug)]
pub struct Dns {
    pub iface: Option<String>,
    pub dns0: Option<String>,
    pub dns1: Option<String>,
}

/// The model of a `Dns`.
pub struct DnsView {
    pub iface: Option<Seq<char>>,
    pub dns0: Option<Seq<char>>,
    pub dns1: Option<Seq<char>>,
}

impl View for Dns {
    type V = DnsView;

    open spec fn view(&self) -> DnsView {
        DnsView {
            iface: text_of(self.iface),
            dns0: text_of(self.dns0),
            dns1: text_of(self.dns1),
        }
    }
}

/// The local ports of the sockets that the reply lists.
#[derive(Debug)]
pub struct Netstat {
    pub listen_ports: Vec<i64>,
}

/// The model of a `Netstat`.
pub struct NetstatView {
    pub listen_ports: Seq<i64>,
}

impl View for Netstat {
    type V = NetstatView;

    open spec fn view(&self) -> NetstatView {
        NetstatView { listen_ports: self.listen_ports@ }
    }
}

/// The input and output registers of one port, as written.
#[derive(Debug)]
pub struct PortLine {
    pub port: String,
    pub input: String,
    pub output: String,
}

/// The model of a `PortLine`.
pub struct PortLineView {
    pub port: Seq<char>,
    pub input: Seq<char>,
    pub output: Seq<char>,
}

impl View for PortLine {
    type V = PortLineView;

    open spec fn view(&self) -> PortLineView {
        PortLineView { port: self.port@, input: self.input@, output: self.output@ }
    }
}

/// The models of a list of port lines.
pub open spec fn ports_of(v: Seq<PortLine>) -> Seq<PortLineView> {
    v.map_values(|p: PortLine| p@)
}

/// Process parameters of the laser and of the wire feeder.
///
/// A parameter that the reply does not give is `None`. Lines in the shape
/// `key: value` that no rule claims are kept in `extras`.
#[derive(Debug, Clone)]
pub struct ProcessParams {
    pub power: Option<i64>,
    pub pwm_fre: Option<i64>,
    pub pwm_duty: Option<i64>,
    pub mode: Option<i64>,
    pub head_mode: Option<i64>,
    pub head_fre: Option<i64>,
    pub head_width: Option<i64>,
    pub pulse_on: Option<i64>,
    pub pulse_off: Option<i64>,
    pub gas_early: Option<i64>,
    pub gas_delay: Option<i64>,
    pub pow_rise: Option<i64>,
    pub pow_fall: Option<i64>,
    pub pow_early: Option<i64>,
    pub pow_delay: Option<i64>,
    pub power_on: Option<i64>,
    pub power_off: Option<i64>,
    pub index: Option<i64>,
    pub feeder_mode: Option<i64>,
    pub feeder_out_speed: Option<i64>,
    pub feeder_out_len: Option<i64>,
    pub feeder_in_speed: Option<i64>,
    pub feeder_in_len: Option<i64>,
    pub feeder_cycle: Option<i64>,
    pub feeder_smoothness: Option<i64>,
    pub feeder_out_delay: Option<i64>,
    pub feeder_in_delay: Option<i64>,
    pub extras: Vec<KVLine>,
}

/// The model of a `ProcessParams`.
pub struct ProcessParamsView {
    pub power: Option<i64>,
    pub pwm_fre: Option<i64>,
    pub pwm_duty: Option<i64>,
    pub mode: Option<i64>,
    pub head_mode: Option<i64>,
    pub head_fre: Option<i64>,
    pub head_width: Option<i64>,
    pub pulse_on: Option<i64>,
    pub pulse_off: Option<i64>,
    pub gas_early: Option<i64>,
    pub gas_delay: Option<i64>,
    pub pow_rise: Option<i64>,
    pub pow_fall: Option<i64>,
    pub pow_early: Option<i64>,
    pub pow_delay: Option<i64>,
    pub power_on: Option<i64>,
    pub power_off: Option<i64>,
    pub index: Option<i64>,
    pub feeder_mode: Option<i64>,
    pub feeder_out_speed: Option<i64>,
    pub feeder_out_len: Option<i64>,
    pub feeder_in_speed: Option<i64>,
    pub feeder_in_len: Option<i64>,
    pub feeder_cycle: Option<i64>,
    pub feeder_smoothness: Option<i64>,
    pub feeder_out_delay: Option<i64>,
    pub feeder_in_delay: Option<i64>,
    pub extras: Seq<KVLineView>,
}

impl View for ProcessParams {
    type V = ProcessParamsView;

    open spec fn view(&self) -> ProcessParamsView {
        ProcessParamsView {
            power: self.power,
            pwm_fre: self.pwm_fre,
            pwm_duty: self.pwm_duty,
            mode: self.mode,
            head_mode: self.head_mode,
            head_fre: self.head_fre,
            head_width: self.head_width,
            pulse_on: self.pulse_on,
            pulse_off: self.pulse_off,
            gas_early: self.gas_early,
            gas_delay: self.gas_delay,
            pow_rise: self.pow_rise,
            pow_fall: self.pow_fall,
            pow_early: self.pow_early,
            pow_delay: self.pow_delay,
            power_on: self.power_on,
            power_off: self.power_off,
            index: self.index,
            feeder_mode: self.feeder_mode,
            feeder_out_speed: self.feeder_out_speed,
            feeder_out_len: self.feeder_out_len,
            feeder_in_speed: self.feeder_in_speed,
            feeder_in_len: self.feeder_in_len,
            feeder_cycle: self.feeder_cycle,
            feeder_smoothness: self.feeder_smoothness,
            feeder_out_delay: self.feeder_out_delay,
            feeder_in_delay: self.feeder_in_delay,
            extras: pairs_of(self.extras@),
        }
    }
}

/// The parameters of a reply that gives none.
pub open spec fn no_params() -> ProcessParamsView {
    ProcessParamsView {
        power: None,
        pwm_fre: None,
        pwm_duty: None,
        mode: None,
        head_mode: None,
        head_fre: None,
        head_width: None,
        pulse_on: None,
        pulse_off: None,
        gas_early: None,
        gas_delay: None,
        pow_rise: None,
        pow_fall: None,
        pow_early: None,
        pow_delay: None,
        power_on: None,
        power_off: None,
        index: None,
        feeder_mode: None,
        feeder_out_speed: None,
        feeder_out_len: None,
        feeder_in_speed: None,
        feeder_in_len: None,
        feeder_cycle: None,
        feeder_smoothness: None,
        feeder_out_delay: None,
        feeder_in_delay: None,
        extras: Seq::empty(),
    }
}

impl Default for ProcessParams {
    fn default() -> (r: ProcessParams)
        ensures
            r@ == no_params(),
    {
        let r = ProcessParams {
            power: None,
            pwm_fre: None,
            pwm_duty: None,
            mode: None,
            head_mode: None,
            head_fre: None,
            head_width: None,
            pulse_on: None,
            pulse_off: None,
            gas_early: None,
            gas_delay: None,
            pow_rise: None,
            pow_fall: None,
            pow_early: None,
            pow_delay: None,
            power_on: None,
            power_off: None,
            index: None,
            feeder_mode: None,
            feeder_out_speed: None,
            feeder_out_len: None,
            feeder_in_speed: None,
            feeder_in_len: None,
            feeder_cycle: None,
            feeder_smoothness: None,
            feeder_out_delay: None,
            feeder_in_delay: None,
            extras: Vec::new(),
        };
        assert(pairs_of(r.extras@) == Seq::<KVLineView>::empty());
        r
    }
}

/// Why a grammar that asks for a fixed shape gave no record.
#[derive(Debug, Clone, Copy, PartialEq, Eq, Structural)]
pub enum ParseError {
    /// The reply has no line.
    Empty,
    /// The line is not in the shape that the grammar asks for.
    NoMatch,
}

impl ParseError {
    /// The error in words.
    pub fn message(&self) -> (r: String)
        ensures
            r@ == (match *self {
                ParseError::Empty => "empty"@,
                ParseError::NoMatch => "no match"@,
            }),
    {
        match self {
            ParseError::Empty => "empty".to_owned(),
            ParseError::NoMatch => "no match".to_owned(),
        }
    }
}

/// What a reply was understood to be: one variant for each family of
/// commands, and `Unknown` for a reply that no grammar accepts.
#[derive(Debug)]
pub enum ParsedMessage {
    Version(VersionInfo),
    Free(Free),
    Ps { columns: Vec<String>, rows: Vec<ThreadRow> },
    WorkTime(WorkTime),
    Warning(FlagWord),
    Error(FlagWord),
    Lock(FlagWord),
    Mode { mode: String },
    State { state: String },
    Status(Status),
    SubStatus(SubStatus),
    IOState(Vec<KVLine>),
    IfConfig(IfConfig),
    Dns(Dns),
    Netstat(Netstat),
    ReadAll(Vec<PortLine>),
    /// Laser process parameters.
    ProcessCur(ProcessParams),
    /// Wire feeder process parameters.
    ProcessFeeder(ProcessParams),
    /// The command and the cleaned reply lines, where nothing more was
    /// understood.
    Unknown { cmd: String, lines: Vec<String> },
}

/// The model of a `ParsedMessage`.
pub enum ParsedMessageView {
    Version(VersionInfoView),
    Free(Free),
    Ps { columns: Seq<Seq<char>>, rows: Seq<ThreadRowView> },
    WorkTime(WorkTimeView),
    Warning(FlagWordView),
    Error(FlagWordView),
    Lock(FlagWordView),
    Mode { mode: Seq<char> },
    State { state: Seq<char> },
    Status(StatusView),
    SubStatus(SubStatusView),
    IOState(Seq<KVLineView>),
    IfConfig(IfConfigView),
    Dns(DnsView),
    Netstat(NetstatView),
    ReadAll(Seq<PortLineView>),
    ProcessCur(ProcessParamsView),
    ProcessFeeder(ProcessParamsView),
    Unknown { cmd: Seq<char>, lines: Seq<Seq<char>> },
}

impl View for ParsedMessage {
    type V = ParsedMessageView;

    open spec fn view(&self) -> ParsedMessageView {
        match *self {
            ParsedMessage::Version(v) => ParsedMessageView::Version(v@),
            ParsedMessage::Free(f) => ParsedMessageView::Free(f),
            ParsedMessage::Ps { columns, rows } => ParsedMessageView::Ps {
                columns: texts_of(columns@),
                rows: rows_of(rows@),
            },
            ParsedMessage::WorkTime(w) => ParsedMessageView::WorkTime(w@),
            ParsedMessage::Warning(f) => ParsedMessageView::Warning(f@),
            ParsedMessage::Error(f) => ParsedMessageView::Error(f@),
            ParsedMessage::Lock(f) => ParsedMessageView::Lock(f@),
            ParsedMessage::Mode { mode } => ParsedMessageView::Mode { mode: mode@ },
            ParsedMessage::State { state } => ParsedMessageView::State { state: state@ },
            ParsedMessage::Status(s) => ParsedMessageView::Status(s@),
            ParsedMessage::SubStatus(s) => ParsedMessageView::SubStatus(s@),
            ParsedMessage::IOState(l) => ParsedMessageView::IOState(pairs_of(l@)),
            ParsedMessage::IfConfig(c) => ParsedMessageView::IfConfig(c@),
            ParsedMessage::Dns(d) => ParsedMessageView::Dns(d@),
            ParsedMessage::Netstat(n) => ParsedMessageView::Netstat(n@),
            ParsedMessage::ReadAll(p) => ParsedMessageView::ReadAll(ports_of(p@)),
            ParsedMessage::ProcessCur(p) => ParsedMessageView::ProcessCur(p@),
            ParsedMessage::ProcessFeeder(p) => ParsedMessageView::ProcessFeeder(p@),
            ParsedMessage::Unknown { cmd, lines } => ParsedMessageView::Unknown {
                cmd: cmd@,
                lines: texts_of(lines@),
            },
        }
    }
}

/// The name under which a record of the kind of `m` is known to the
/// consumers of encoded records. The names are fixed: consumers tell the
/// records apart by them.
pub open spec fn kind_name(m: ParsedMessageView) -> Seq<char> {
    match m {
        ParsedMessageView::Version(_) => "version"@,
        ParsedMessageView::Free(_) => "free"@,
        ParsedMessageView::Ps { .. } => "ps"@,
        ParsedMessageView::WorkTime(_) => "work_time"@,
        ParsedMessageView::Warning(_) => "warning"@,
        ParsedMessageView::Error(_) => "error"@,
        ParsedMessageView::Lock(_) => "lock"@,
        ParsedMessageView::Mode { .. } => "mode"@,
        ParsedMessageView::State { .. } => "state"@,
        ParsedMessageView::Status(_) => "status"@,
        ParsedMessageView::SubStatus(_) => "sub_status"@,
        ParsedMessageView::IOState(_) => "i_o_state"@,
        ParsedMessageView::IfConfig(_) => "if_config"@,
        ParsedMessageView::Dns(_) => "dns"@,
        ParsedMessageView::Netstat(_) => "netstat"@,
        ParsedMessageView::ReadAll(_) => "read_all"@,
        ParsedMessageView::ProcessCur(_) => "process_cur"@,
        ParsedMessageView::ProcessFeeder(_) => "process_feeder"@,
        ParsedMessageView::Unknown { .. } => "unknown"@,
    }
}

impl ParsedMessage {
    /// The name of the kind of this record.
    pub fn kind(&self) -> (r: &'static str)
        ensures
            r@ == kind_name(self@),
    {
        match self {
            ParsedMessage::Version(_) => "version",
            ParsedMessage::Free(_) => "free",
            ParsedMessage::Ps { .. } => "ps",
            ParsedMessage::WorkTime(_) => "work_time",
            ParsedMessage::Warning(_) => "warning",
            ParsedMessage::Error(_) => "error",
            ParsedMessage::Lock(_) => "lock",
            ParsedMessage::Mode { .. } => "mode",
            ParsedMessage::State { .. } => "state",
            ParsedMessage::Status(_) => "status",
            ParsedMessage::SubStatus(_) => "sub_status",
            ParsedMessage::IOState(_) => "i_o_state",
            ParsedMessage::IfConfig(_) => "if_config",
            ParsedMessage::Dns(_) => "dns",
            ParsedMessage::Netstat(_) => "netstat",
            ParsedMessage::ReadAll(_) => "read_all",
            ParsedMessage::ProcessCur(_) => "process_cur",
            ParsedMessage::ProcessFeeder(_) => "process_feeder",
            ParsedMessage::Unknown { .. } => "unknown",
        }
    }
}

/// The model of what a grammar that may fail returns.
pub open spec fn outcome_of(r: Result<ParsedMessage, ParseError>) -> Result<
    ParsedMessageView,
    ParseError,
> {
    match r {
        Ok(m) => Ok(m@),
        Err(e) => Err(e),
    }
}

} // verus!
