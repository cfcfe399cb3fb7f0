//! The attributes of events that the normalization reads or fills in.
//!
//! Each structure comes with a model: the same attributes as mathematical
//! values, which the contracts speak of.

use crate::annotated::{Ann, Annotated, Object, Value, ValueModel};
use crate::text::same_text;
use vstd::prelude::*;

verus! {

/// The text that stands for an address yet to be filled in.
pub const AUTO_ADDRESS: &'static str = "{{auto}}";

/// How severe an event is.
#[derive(Clone, Copy, Debug, PartialEq, Eq, Structural)]
pub enum Level {
    Debug,
    Info,
    Warning,
    Error,
    Fatal,
}

impl DeepView for Level {
    type V = Level;

    open spec fn deep_view(&self) -> Level {
        *self
    }
}

/// What kind of event was reported.
#[derive(Clone, Copy, Debug, PartialEq, Eq, Structural)]
pub enum EventType {
    /// Something that carries an exception.
    Error,
    /// A violated content security policy.
    Csp,
    /// A failed public key pin.
    Hpkp,
    /// A missing certificate transparency proof.
    ExpectCT,
    /// A missing stapled certificate status.
    ExpectStaple,
    /// Anything else.
    Default,
}

impl DeepView for EventType {
    type V = EventType;

    open spec fn deep_view(&self) -> EventType {
        *self
    }
}

/// A point in time, counted from the start of 1970 in UTC.
#[derive(Clone, Copy, Debug, PartialEq, Eq, Structural)]
pub struct Timestamp {
    pub seconds: i64,
    pub nanoseconds: u32,
}

impl DeepView for Timestamp {
    type V = Timestamp;

    open spec fn deep_view(&self) -> Timestamp {
        *self
    }
}

impl Timestamp {
    /// The time is not before the start of 1970, and the fraction is less than a second.
    pub open spec fn well_formed(self) -> bool {
        0 <= self.seconds && self.nanoseconds < 1_000_000_000
    }
}

/// An internet address in its text form, or [`AUTO_ADDRESS`].
#[derive(Debug, PartialEq)]
pub struct IpAddr(pub String);

impl DeepView for IpAddr {
    type V = Seq<char>;

    open spec fn deep_view(&self) -> Seq<char> {
        self.0@
    }
}

impl IpAddr {
    /// Whether the address is yet to be filled in.
    pub fn is_auto(&self) -> (res: bool)
        ensures
            res == (self.deep_view() == AUTO_ADDRESS@),
    {
        same_text(self.0.as_str(), AUTO_ADDRESS)
    }
}

/// A text that clients may also send as another JSON value.
#[derive(Debug, PartialEq)]
pub struct JsonLenientString(pub String);

impl DeepView for JsonLenientString {
    type V = Seq<char>;

    open spec fn deep_view(&self) -> Seq<char> {
        self.0@
    }
}

impl From<String> for JsonLenientString {
    fn from(text: String) -> (res: JsonLenientString) {
        JsonLenientString(text)
    }
}

impl vstd::std_specs::convert::FromSpecImpl<String> for JsonLenientString {
    open spec fn obeys_from_spec() -> bool {
        true
    }

    open spec fn from_spec(text: String) -> JsonLenientString {
        JsonLenientString(text)
    }
}

/// One tag: a key and a value, either of which may be missing.
pub type Tag = Annotated<(Annotated<String>, Annotated<String>)>;

/// What a [`Tag`] holds.
pub type TagModel = Ann<(Ann<Seq<char>>, Ann<Seq<char>>)>;

/// The tags of an event, in order.
#[derive(Debug, PartialEq)]
pub struct Tags(pub Vec<Tag>);

impl DeepView for Tags {
    type V = Seq<TagModel>;

    open spec fn deep_view(&self) -> Seq<TagModel> {
        self.0.deep_view()
    }
}

/// A list of interface values.
#[derive(Debug, PartialEq)]
pub struct Values<T> {
    pub values: Annotated<Vec<Annotated<T>>>,
    /// Attributes that the normalization leaves alone.
    pub other: Object<Value>,
}

/// What a [`Values`] holds.
#[verifier::ext_equal]
pub struct ValuesModel<V> {
    pub values: Ann<Seq<Ann<V>>>,
    pub other: Map<Seq<char>, Ann<ValueModel>>,
}

impl<T: DeepView> DeepView for Values<T> {
    type V = ValuesModel<T::V>;

    open spec fn deep_view(&self) -> ValuesModel<T::V> {
        ValuesModel { values: self.values.deep_view(), other: self.other.deep_view() }
    }
}

impl<T> Default for Values<T> {
    fn default() -> (res: Values<T>)
        ensures
            res.values.0 is None,
            res.values.1.deep_view() == crate::annotated::MetaModel::blank(),
            res.other.deep_view() == Map::<Seq<char>, Ann<ValueModel>>::empty(),
    {
        Values { values: Annotated::empty(), other: Object::new() }
    }
}


/// The operating system that an event was generated on.
#[derive(Debug, PartialEq)]
pub struct OsContext {
    /// Name of the system, such as `ios` or `linux`.
    pub name: Annotated<String>,
    /// Attributes that the normalization leaves alone.
    pub other: Object<Value>,
}

/// What an [`OsContext`] holds.
#[verifier::ext_equal]
pub struct OsContextModel {
    pub name: Ann<Seq<char>>,
    pub other: Map<Seq<char>, Ann<ValueModel>>,
}

impl DeepView for OsContext {
    type V = OsContextModel;

    open spec fn deep_view(&self) -> OsContextModel {
        OsContextModel {
            name: self.name.deep_view(),
            other: self.other.deep_view(),
        }
    }
}

impl OsContextModel {
    /// Nothing is known.
    pub open spec fn blank() -> OsContextModel {
        OsContextModel {
            name: Ann::missing(),
            other: Map::empty(),
        }
    }
}

impl Default for OsContext {
    fn default() -> (res: OsContext)
        ensures
            res.deep_view() == OsContextModel::blank(),
    {
        OsContext {
            name: Annotated::empty(),
            other: Object::new(),
        }
    }
}

/// Descriptions of the environment of an event.
#[derive(Debug, PartialEq)]
pub struct Contexts {
    pub os: Annotated<OsContext>,
    /// Attributes that the normalization leaves alone.
    pub other: Object<Value>,
}

/// What a [`Contexts`] holds.
#[verifier::ext_equal]
pub struct ContextsModel {
    pub os: Ann<OsContextModel>,
    pub other: Map<Seq<char>, Ann<ValueModel>>,
}

impl DeepView for Contexts {
    type V = ContextsModel;

    open spec fn deep_view(&self) -> ContextsModel {
        ContextsModel {
            os: self.os.deep_view(),
            other: self.other.deep_view(),
        }
    }
}

impl ContextsModel {
    /// Nothing is known.
    pub open spec fn blank() -> ContextsModel {
        ContextsModel {
            os: Ann::missing(),
            other: Map::empty(),
        }
    }
}

impl Default for Contexts {
    fn default() -> (res: Contexts)
        ensures
            res.deep_view() == ContextsModel::blank(),
    {
        Contexts {
            os: Annotated::empty(),
            other: Object::new(),
        }
    }
}

/// The system SDK that an application was built with.
#[derive(Debug, PartialEq)]
pub struct SystemSdkInfo {
    /// Name of the system, such as `ios` or `macos`.
    pub sdk_name: Annotated<String>,
    /// Attributes that the normalization leaves alone.
    pub other: Object<Value>,
}

/// What a [`SystemSdkInfo`] holds.
#[verifier::ext_equal]
pub struct SystemSdkInfoModel {
    pub sdk_name: Ann<Seq<char>>,
    pub other: Map<Seq<char>, Ann<ValueModel>>,
}

impl DeepView for SystemSdkInfo {
    type V = SystemSdkInfoModel;

    open spec fn deep_view(&self) -> SystemSdkInfoModel {
        SystemSdkInfoModel {
            sdk_name: self.sdk_name.deep_view(),
            other: self.other.deep_view(),
        }
    }
}

impl SystemSdkInfoModel {
    /// Nothing is known.
    pub open spec fn blank() -> SystemSdkInfoModel {
        SystemSdkInfoModel {
            sdk_name: Ann::missing(),
            other: Map::empty(),
        }
    }
}

impl Default for SystemSdkInfo {
    fn default() -> (res: SystemSdkInfo)
        ensures
            res.deep_view() == SystemSdkInfoModel::blank(),
    {
        SystemSdkInfo {
            sdk_name: Annotated::empty(),
            other: Object::new(),
        }
    }
}

/// Information used to resolve addresses in stack traces.
#[derive(Debug, PartialEq)]
pub struct DebugMeta {
    pub system_sdk: Annotated<SystemSdkInfo>,
    /// Attributes that the normalization leaves alone.
    pub other: Object<Value>,
}

/// What a [`DebugMeta`] holds.
#[verifier::ext_equal]
pub struct DebugMetaModel {
    pub system_sdk: Ann<SystemSdkInfoModel>,
    pub other: Map<Seq<char>, Ann<ValueModel>>,
}

impl DeepView for DebugMeta {
    type V = DebugMetaModel;

    open spec fn deep_view(&self) -> DebugMetaModel {
        DebugMetaModel {
            system_sdk: self.system_sdk.deep_view(),
            other: self.other.deep_view(),
        }
    }
}

impl DebugMetaModel {
    /// Nothing is known.
    pub open spec fn blank() -> DebugMetaModel {
        DebugMetaModel {
            system_sdk: Ann::missing(),
            other: Map::empty(),
        }
    }
}

impl Default for DebugMeta {
    fn default() -> (res: DebugMeta)
        ensures
            res.deep_view() == DebugMetaModel::blank(),
    {
        DebugMeta {
            system_sdk: Annotated::empty(),
            other: Object::new(),
        }
    }
}

/// The POSIX signal behind an exception.
#[derive(Debug, PartialEq)]
pub struct PosixSignal {
    pub number: Annotated<i64>,
    /// Name of the signal, such as `SIGSEGV`.
    pub name: Annotated<String>,
    /// Attributes that the normalization leaves alone.
    pub other: Object<Value>,
}

/// What a [`PosixSignal`] holds.
#[verifier::ext_equal]
pub struct PosixSignalModel {
    pub number: Ann<i64>,
    pub name: Ann<Seq<char>>,
    pub other: Map<Seq<char>, Ann<ValueModel>>,
}

impl DeepView for PosixSignal {
    type V = PosixSignalModel;

    open spec fn deep_view(&self) -> PosixSignalModel {
        PosixSignalModel {
            number: self.number.deep_view(),
            name: self.name.deep_view(),
            other: self.other.deep_view(),
        }
    }
}

impl PosixSignalModel {
    /// Nothing is known.
    pub open spec fn blank() -> PosixSignalModel {
        PosixSignalModel {
            number: Ann::missing(),
            name: Ann::missing(),
            other: Map::empty(),
        }
    }
}

impl Default for PosixSignal {
    fn default() -> (res: PosixSignal)
        ensures
            res.deep_view() == PosixSignalModel::blank(),
    {
        PosixSignal {
            number: Annotated::empty(),
            name: Annotated::empty(),
            other: Object::new(),
        }
    }
}

/// The Mach exception behind an exception.
#[derive(Debug, PartialEq)]
pub struct MachException {
    /// Number of the exception.
    pub ty: Annotated<i64>,
    /// Name of the exception, such as `EXC_BAD_ACCESS`.
    pub name: Annotated<String>,
    /// Attributes that the normalization leaves alone.
    pub other: Object<Value>,
}

/// What a [`MachException`] holds.
#[verifier::ext_equal]
pub struct MachExceptionModel {
    pub ty: Ann<i64>,
    pub name: Ann<Seq<char>>,
    pub other: Map<Seq<char>, Ann<ValueModel>>,
}

impl DeepView for MachException {
    type V = MachExceptionModel;

    open spec fn deep_view(&self) -> MachExceptionModel {
        MachExceptionModel {
            ty: self.ty.deep_view(),
            name: self.name.deep_view(),
            other: self.other.deep_view(),
        }
    }
}

impl MachExceptionModel {
    /// Nothing is known.
    pub open spec fn blank() -> MachExceptionModel {
        MachExceptionModel {
            ty: Ann::missing(),
            name: Ann::missing(),
            other: Map::empty(),
        }
    }
}

impl Default for MachException {
    fn default() -> (res: MachException)
        ensures
            res.deep_view() == MachExceptionModel::blank(),
    {
        MachException {
            ty: Annotated::empty(),
            name: Annotated::empty(),
            other: Object::new(),
        }
    }
}

/// What the operating system reported about an exception.
#[derive(Debug, PartialEq)]
pub struct MechanismMeta {
    pub signal: Annotated<PosixSignal>,
    pub mach_exception: Annotated<MachException>,
    /// Attributes that the normalization leaves alone.
    pub other: Object<Value>,
}

/// What a [`MechanismMeta`] holds.
#[verifier::ext_equal]
pub struct MechanismMetaModel {
    pub signal: Ann<PosixSignalModel>,
    pub mach_exception: Ann<MachExceptionModel>,
    pub other: Map<Seq<char>, Ann<ValueModel>>,
}

impl DeepView for MechanismMeta {
    type V = MechanismMetaModel;

    open spec fn deep_view(&self) -> MechanismMetaModel {
        MechanismMetaModel {
            signal: self.signal.deep_view(),
            mach_exception: self.mach_exception.deep_view(),
            other: self.other.deep_view(),
        }
    }
}

impl MechanismMetaModel {
    /// Nothing is known.
    pub open spec fn blank() -> MechanismMetaModel {
        MechanismMetaModel {
            signal: Ann::missing(),
            mach_exception: Ann::missing(),
            other: Map::empty(),
        }
    }
}

impl Default for MechanismMeta {
    fn default() -> (res: MechanismMeta)
        ensures
            res.deep_view() == MechanismMetaModel::blank(),
    {
        MechanismMeta {
            signal: Annotated::empty(),
            mach_exception: Annotated::empty(),
            other: Object::new(),
        }
    }
}

/// The mechanism by which an exception was caught.
#[derive(Debug, PartialEq)]
pub struct Mechanism {
    /// Identifier of the mechanism.
    pub ty: Annotated<String>,
    pub meta: Annotated<MechanismMeta>,
    /// Attributes that the normalization leaves alone.
    pub other: Object<Value>,
}

/// What a [`Mechanism`] holds.
#[verifier::ext_equal]
pub struct MechanismModel {
    pub ty: Ann<Seq<char>>,
    pub meta: Ann<MechanismMetaModel>,
    pub other: Map<Seq<char>, Ann<ValueModel>>,
}

impl DeepView for Mechanism {
    type V = MechanismModel;

    open spec fn deep_view(&self) -> MechanismModel {
        MechanismModel {
            ty: self.ty.deep_view(),
            meta: self.meta.deep_view(),
            other: self.other.deep_view(),
        }
    }
}

impl MechanismModel {
    /// Nothing is known.
    pub open spec fn blank() -> MechanismModel {
        MechanismModel {
            ty: Ann::missing(),
            meta: Ann::missing(),
            other: Map::empty(),
        }
    }
}

impl Default for Mechanism {
    fn default() -> (res: Mechanism)
        ensures
            res.deep_view() == MechanismModel::blank(),
    {
        Mechanism {
            ty: Annotated::empty(),
            meta: Annotated::empty(),
            other: Object::new(),
        }
    }
}

/// One frame of a stack trace.
#[derive(Debug, PartialEq)]
pub struct Frame {
    /// Name of the function.
    pub function: Annotated<String>,
    /// Name of the symbol, where it differs from that of the function.
    pub symbol: Annotated<String>,
    /// Path of the source file, relative to the project.
    pub filename: Annotated<String>,
    /// Absolute path or URL of the source file.
    pub abs_path: Annotated<String>,
    /// Line number in the source file.
    pub line: Annotated<u64>,
    /// Source lines before that line.
    pub pre_lines: Annotated<Vec<Annotated<String>>>,
    /// Source lines after that line.
    pub post_lines: Annotated<Vec<Annotated<String>>>,
    /// Whether the frame belongs to the application itself.
    pub in_app: Annotated<bool>,
    /// Attributes that the normalization leaves alone.
    pub other: Object<Value>,
}

/// What a [`Frame`] holds.
#[verifier::ext_equal]
pub struct FrameModel {
    pub function: Ann<Seq<char>>,
    pub symbol: Ann<Seq<char>>,
    pub filename: Ann<Seq<char>>,
    pub abs_path: Ann<Seq<char>>,
    pub line: Ann<u64>,
    pub pre_lines: Ann<Seq<Ann<Seq<char>>>>,
    pub post_lines: Ann<Seq<Ann<Seq<char>>>>,
    pub in_app: Ann<bool>,
    pub other: Map<Seq<char>, Ann<ValueModel>>,
}

impl DeepView for Frame {
    type V = FrameModel;

    open spec fn deep_view(&self) -> FrameModel {
        FrameModel {
            function: self.function.deep_view(),
            symbol: self.symbol.deep_view(),
            filename: self.filename.deep_view(),
            abs_path: self.abs_path.deep_view(),
            line: self.line.deep_view(),
            pre_lines: self.pre_lines.deep_view(),
            post_lines: self.post_lines.deep_view(),
            in_app: self.in_app.deep_view(),
            other: self.other.deep_view(),
        }
    }
}

impl FrameModel {
    /// Nothing is known.
    pub open spec fn blank() -> FrameModel {
        FrameModel {
            function: Ann::missing(),
            symbol: Ann::missing(),
            filename: Ann::missing(),
            abs_path: Ann::missing(),
            line: Ann::missing(),
            pre_lines: Ann::missing(),
            post_lines: Ann::missing(),
            in_app: Ann::missing(),
            other: Map::empty(),
        }
    }
}

impl Default for Frame {
    fn default() -> (res: Frame)
        ensures
            res.deep_view() == FrameModel::blank(),
    {
        Frame {
            function: Annotated::empty(),
            symbol: Annotated::empty(),
            filename: Annotated::empty(),
            abs_path: Annotated::empty(),
            line: Annotated::empty(),
            pre_lines: Annotated::empty(),
            post_lines: Annotated::empty(),
            in_app: Annotated::empty(),
            other: Object::new(),
        }
    }
}

/// A stack trace.
#[derive(Debug, PartialEq)]
pub struct Stacktrace {
    /// Frames, from the outermost call to the innermost.
    pub frames: Annotated<Vec<Annotated<Frame>>>,
    /// Attributes that the normalization leaves alone.
    pub other: Object<Value>,
}

/// What a [`Stacktrace`] holds.
#[verifier::ext_equal]
pub struct StacktraceModel {
    pub frames: Ann<Seq<Ann<FrameModel>>>,
    pub other: Map<Seq<char>, Ann<ValueModel>>,
}

impl DeepView for Stacktrace {
    type V = StacktraceModel;

    open spec fn deep_view(&self) -> StacktraceModel {
        StacktraceModel {
            frames: self.frames.deep_view(),
            other: self.other.deep_view(),
        }
    }
}

impl StacktraceModel {
    /// Nothing is known.
    pub open spec fn blank() -> StacktraceModel {
        StacktraceModel {
            frames: Ann::missing(),
            other: Map::empty(),
        }
    }
}

impl Default for Stacktrace {
    fn default() -> (res: Stacktrace)
        ensures
            res.deep_view() == StacktraceModel::blank(),
    {
        Stacktrace {
            frames: Annotated::empty(),
            other: Object::new(),
        }
    }
}

/// An exception.
#[derive(Debug, PartialEq)]
pub struct Exception {
    /// Type of the exception.
    pub ty: Annotated<String>,
    /// Message of the exception.
    pub value: Annotated<JsonLenientString>,
    pub stacktrace: Annotated<Stacktrace>,
    /// The stack trace as it was before symbols were resolved.
    pub raw_stacktrace: Annotated<Stacktrace>,
    pub mechanism: Annotated<Mechanism>,
    /// Attributes that the normalization leaves alone.
    pub other: Object<Value>,
}

/// What an [`Exception`] holds.
#[verifier::ext_equal]
pub struct ExceptionModel {
    pub ty: Ann<Seq<char>>,
    pub value: Ann<Seq<char>>,
    pub stacktrace: Ann<StacktraceModel>,
    pub raw_stacktrace: Ann<StacktraceModel>,
    pub mechanism: Ann<MechanismModel>,
    pub other: Map<Seq<char>, Ann<ValueModel>>,
}

impl DeepView for Exception {
    type V = ExceptionModel;

    open spec fn deep_view(&self) -> ExceptionModel {
        ExceptionModel {
            ty: self.ty.deep_view(),
            value: self.value.deep_view(),
            stacktrace: self.stacktrace.deep_view(),
            raw_stacktrace: self.raw_stacktrace.deep_view(),
            mechanism: self.mechanism.deep_view(),
            other: self.other.deep_view(),
        }
    }
}

impl ExceptionModel {
    /// Nothing is known.
    pub open spec fn blank() -> ExceptionModel {
        ExceptionModel {
            ty: Ann::missing(),
            value: Ann::missing(),
            stacktrace: Ann::missing(),
            raw_stacktrace: Ann::missing(),
            mechanism: Ann::missing(),
            other: Map::empty(),
        }
    }
}

impl Default for Exception {
    fn default() -> (res: Exception)
        ensures
            res.deep_view() == ExceptionModel::blank(),
    {
        Exception {
            ty: Annotated::empty(),
            value: Annotated::empty(),
            stacktrace: Annotated::empty(),
            raw_stacktrace: Annotated::empty(),
            mechanism: Annotated::empty(),
            other: Object::new(),
        }
    }
}

/// Something that happened before an event.
#[derive(Debug, PartialEq)]
pub struct Breadcrumb {
    /// Kind of breadcrumb.
    pub ty: Annotated<String>,
    pub level: Annotated<Level>,
    /// Attributes that the normalization leaves alone.
    pub other: Object<Value>,
}

/// What a [`Breadcrumb`] holds.
#[verifier::ext_equal]
pub struct BreadcrumbModel {
    pub ty: Ann<Seq<char>>,
    pub level: Ann<Level>,
    pub other: Map<Seq<char>, Ann<ValueModel>>,
}

impl DeepView for Breadcrumb {
    type V = BreadcrumbModel;

    open spec fn deep_view(&self) -> BreadcrumbModel {
        BreadcrumbModel {
            ty: self.ty.deep_view(),
            level: self.level.deep_view(),
            other: self.other.deep_view(),
        }
    }
}

impl BreadcrumbModel {
    /// Nothing is known.
    pub open spec fn blank() -> BreadcrumbModel {
        BreadcrumbModel {
            ty: Ann::missing(),
            level: Ann::missing(),
            other: Map::empty(),
        }
    }
}

impl Default for Breadcrumb {
    fn default() -> (res: Breadcrumb)
        ensures
            res.deep_view() == BreadcrumbModel::blank(),
    {
        Breadcrumb {
            ty: Annotated::empty(),
            level: Annotated::empty(),
            other: Object::new(),
        }
    }
}

/// The web request during which an event occurred.
#[derive(Debug, PartialEq)]
pub struct Request {
    /// Variables of the server, such as `REMOTE_ADDR`.
    pub env: Annotated<Object<Value>>,
    /// Attributes that the normalization leaves alone.
    pub other: Object<Value>,
}

/// What a [`Request`] holds.
#[verifier::ext_equal]
pub struct RequestModel {
    pub env: Ann<Map<Seq<char>, Ann<ValueModel>>>,
    pub other: Map<Seq<char>, Ann<ValueModel>>,
}

impl DeepView for Request {
    type V = RequestModel;

    open spec fn deep_view(&self) -> RequestModel {
        RequestModel {
            env: self.env.deep_view(),
            other: self.other.deep_view(),
        }
    }
}

impl RequestModel {
    /// Nothing is known.
    pub open spec fn blank() -> RequestModel {
        RequestModel {
            env: Ann::missing(),
            other: Map::empty(),
        }
    }
}

impl Default for Request {
    fn default() -> (res: Request)
        ensures
            res.deep_view() == RequestModel::blank(),
    {
        Request {
            env: Annotated::empty(),
            other: Object::new(),
        }
    }
}

/// The user who triggered an event.
#[derive(Debug, PartialEq)]
pub struct User {
    pub ip_address: Annotated<IpAddr>,
    /// Attributes that the normalization leaves alone.
    pub other: Object<Value>,
}

/// What a [`User`] holds.
#[verifier::ext_equal]
pub struct UserModel {
    pub ip_address: Ann<Seq<char>>,
    pub other: Map<Seq<char>, Ann<ValueModel>>,
}

impl DeepView for User {
    type V = UserModel;

    open spec fn deep_view(&self) -> UserModel {
        UserModel {
            ip_address: self.ip_address.deep_view(),
            other: self.other.deep_view(),
        }
    }
}

impl UserModel {
    /// Nothing is known.
    pub open spec fn blank() -> UserModel {
        UserModel {
            ip_address: Ann::missing(),
            other: Map::empty(),
        }
    }
}

impl Default for User {
    fn default() -> (res: User)
        ensures
            res.deep_view() == UserModel::blank(),
    {
        User {
            ip_address: Annotated::empty(),
            other: Object::new(),
        }
    }
}

/// The SDK that sent an event.
#[derive(Debug, PartialEq)]
pub struct ClientSdkInfo {
    pub name: Annotated<String>,
    pub version: Annotated<String>,
    /// Attributes that the normalization leaves alone.
    pub other: Object<Value>,
}

/// What a [`ClientSdkInfo`] holds.
#[verifier::ext_equal]
pub struct ClientSdkInfoModel {
    pub name: Ann<Seq<char>>,
    pub version: Ann<Seq<char>>,
    pub other: Map<Seq<char>, Ann<ValueModel>>,
}

impl DeepView for ClientSdkInfo {
    type V = ClientSdkInfoModel;

    open spec fn deep_view(&self) -> ClientSdkInfoModel {
        ClientSdkInfoModel {
            name: self.name.deep_view(),
            version: self.version.deep_view(),
            other: self.other.deep_view(),
        }
    }
}

impl ClientSdkInfoModel {
    /// Nothing is known.
    pub open spec fn blank() -> ClientSdkInfoModel {
        ClientSdkInfoModel {
            name: Ann::missing(),
            version: Ann::missing(),
            other: Map::empty(),
        }
    }
}

impl Default for ClientSdkInfo {
    fn default() -> (res: ClientSdkInfo)
        ensures
            res.deep_view() == ClientSdkInfoModel::blank(),
    {
        ClientSdkInfo {
            name: Annotated::empty(),
            version: Annotated::empty(),
            other: Object::new(),
        }
    }
}

/// An event, with everything that was reported about it.
#[derive(Debug, PartialEq)]
pub struct Event {
    /// Project that the event belongs to.
    pub project: Annotated<u64>,
    /// Key that the event was submitted with.
    pub key_id: Annotated<String>,
    /// Version of the protocol.
    pub version: Annotated<String>,
    pub ty: Annotated<EventType>,
    pub level: Annotated<Level>,
    /// Where the event is thought to come from.
    pub culprit: Annotated<String>,
    /// Logger that created the event.
    pub logger: Annotated<String>,
    /// Platform that the event was generated on.
    pub platform: Annotated<String>,
    /// When the event was created.
    pub timestamp: Annotated<Timestamp>,
    /// When the event was received.
    pub received: Annotated<Timestamp>,
    /// Release of the application.
    pub release: Annotated<String>,
    /// Distribution within the release.
    pub dist: Annotated<String>,
    /// Environment that the application ran in.
    pub environment: Annotated<String>,
    pub tags: Annotated<Tags>,
    /// Anything else that the application reported.
    pub extra: Annotated<Object<Value>>,
    /// Errors met while the event was processed.
    pub errors: Annotated<Vec<Annotated<Value>>>,
    pub user: Annotated<User>,
    pub request: Annotated<Request>,
    pub contexts: Annotated<Contexts>,
    pub debug_meta: Annotated<DebugMeta>,
    pub client_sdk: Annotated<ClientSdkInfo>,
    pub breadcrumbs: Annotated<Values<Breadcrumb>>,
    pub exceptions: Annotated<Values<Exception>>,
    /// Stack trace of the event itself, from clients that report no exception.
    pub stacktrace: Annotated<Stacktrace>,
    /// Report of a violated content security policy.
    pub csp: Annotated<Object<Value>>,
    /// Report of a failed public key pin.
    pub hpkp: Annotated<Object<Value>>,
    /// Report of a missing certificate transparency proof.
    pub expectct: Annotated<Object<Value>>,
    /// Report of a missing stapled certificate status.
    pub expectstaple: Annotated<Object<Value>>,
    /// Attributes that the normalization leaves alone.
    pub other: Object<Value>,
}

/// What an [`Event`] holds.
#[verifier::ext_equal]
pub struct EventModel {
    pub project: Ann<u64>,
    pub key_id: Ann<Seq<char>>,
    pub version: Ann<Seq<char>>,
    pub ty: Ann<EventType>,
    pub level: Ann<Level>,
    pub culprit: Ann<Seq<char>>,
    pub logger: Ann<Seq<char>>,
    pub platform: Ann<Seq<char>>,
    pub timestamp: Ann<Timestamp>,
    pub received: Ann<Timestamp>,
    pub release: Ann<Seq<char>>,
    pub dist: Ann<Seq<char>>,
    pub environment: Ann<Seq<char>>,
    pub tags: Ann<Seq<TagModel>>,
    pub extra: Ann<Map<Seq<char>, Ann<ValueModel>>>,
    pub errors: Ann<Seq<Ann<ValueModel>>>,
    pub user: Ann<UserModel>,
    pub request: Ann<RequestModel>,
    pub contexts: Ann<ContextsModel>,
    pub debug_meta: Ann<DebugMetaModel>,
    pub client_sdk: Ann<ClientSdkInfoModel>,
    pub breadcrumbs: Ann<ValuesModel<BreadcrumbModel>>,
    pub exceptions: Ann<ValuesModel<ExceptionModel>>,
    pub stacktrace: Ann<StacktraceModel>,
    pub csp: Ann<Map<Seq<char>, Ann<ValueModel>>>,
    pub hpkp: Ann<Map<Seq<char>, Ann<ValueModel>>>,
    pub expectct: Ann<Map<Seq<char>, Ann<ValueModel>>>,
    pub expectstaple: Ann<Map<Seq<char>, Ann<ValueModel>>>,
    pub other: Map<Seq<char>, Ann<ValueModel>>,
}

impl DeepView for Event {
    type V = EventModel;

    open spec fn deep_view(&self) -> EventModel {
        EventModel {
            project: self.project.deep_view(),
            key_id: self.key_id.deep_view(),
            version: self.version.deep_view(),
            ty: self.ty.deep_view(),
            level: self.level.deep_view(),
            culprit: self.culprit.deep_view(),
            logger: self.logger.deep_view(),
            platform: self.platform.deep_view(),
            timestamp: self.timestamp.deep_view(),
            received: self.received.deep_view(),
            release: self.release.deep_view(),
            dist: self.dist.deep_view(),
            environment: self.environment.deep_view(),
            tags: self.tags.deep_view(),
            extra: self.extra.deep_view(),
            errors: self.errors.deep_view(),
            user: self.user.deep_view(),
            request: self.request.deep_view(),
            contexts: self.contexts.deep_view(),
            debug_meta: self.debug_meta.deep_view(),
            client_sdk: self.client_sdk.deep_view(),
            breadcrumbs: self.breadcrumbs.deep_view(),
            exceptions: self.exceptions.deep_view(),
            stacktrace: self.stacktrace.deep_view(),
            csp: self.csp.deep_view(),
            hpkp: self.hpkp.deep_view(),
            expectct: self.expectct.deep_view(),
            expectstaple: self.expectstaple.deep_view(),
            other: self.other.deep_view(),
        }
    }
}

impl EventModel {
    /// Nothing is known.
    pub open spec fn blank() -> EventModel {
        EventModel {
            project: Ann::missing(),
            key_id: Ann::missing(),
            version: Ann::missing(),
            ty: Ann::missing(),
            level: Ann::missing(),
            culprit: Ann::missing(),
            logger: Ann::missing(),
            platform: Ann::missing(),
            timestamp: Ann::missing(),
            received: Ann::missing(),
            release: Ann::missing(),
            dist: Ann::missing(),
            environment: Ann::missing(),
            tags: Ann::missing(),
            extra: Ann::missing(),
            errors: Ann::missing(),
            user: Ann::missing(),
            request: Ann::missing(),
            contexts: Ann::missing(),
            debug_meta: Ann::missing(),
            client_sdk: Ann::missing(),
            breadcrumbs: Ann::missing(),
            exceptions: Ann::missing(),
            stacktrace: Ann::missing(),
            csp: Ann::missing(),
            hpkp: Ann::missing(),
            expectct: Ann::missing(),
            expectstaple: Ann::missing(),
            other: Map::empty(),
        }
    }
}

impl Default for Event {
    fn default() -> (res: Event)
        ensures
            res.deep_view() == EventModel::blank(),
    {
        Event {
            project: Annotated::empty(),
            key_id: Annotated::empty(),
            version: Annotated::empty(),
            ty: Annotated::empty(),
            level: Annotated::empty(),
            culprit: Annotated::empty(),
            logger: Annotated::empty(),
            platform: Annotated::empty(),
            timestamp: Annotated::empty(),
            received: Annotated::empty(),
            release: Annotated::empty(),
            dist: Annotated::empty(),
            environment: Annotated::empty(),
            tags: Annotated::empty(),
            extra: Annotated::empty(),
            errors: Annotated::empty(),
            user: Annotated::empty(),
            request: Annotated::empty(),
            contexts: Annotated::empty(),
            debug_meta: Annotated::empty(),
            client_sdk: Annotated::empty(),
            breadcrumbs: Annotated::empty(),
            exceptions: Annotated::empty(),
            stacktrace: Annotated::empty(),
            csp: Annotated::empty(),
            hpkp: Annotated::empty(),
            expectct: Annotated::empty(),
            expectstaple: Annotated::empty(),
            other: Object::new(),
        }
    }
}

} // verus!
