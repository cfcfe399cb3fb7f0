//! What the models of events and of their attributes show, attribute by attribute.

use crate::annotated::{Ann, Annotated, Meta, MetaModel, Remark, Value, ValueModel};
use crate::protocol::{
    Breadcrumb, BreadcrumbModel, ClientSdkInfo, ClientSdkInfoModel, Contexts, ContextsModel,
    DebugMeta, DebugMetaModel, Event, EventModel, Exception, ExceptionModel, Frame, FrameModel,
    IpAddr, JsonLenientString, MachException, MachExceptionModel, Mechanism, MechanismMeta,
    MechanismMetaModel, MechanismModel, OsContext, OsContextModel, PosixSignal, PosixSignalModel,
    Request, RequestModel, Stacktrace, StacktraceModel, SystemSdkInfo, SystemSdkInfoModel, Tags,
    Timestamp, User, UserModel, Values,
};
use crate::store::StoreAuth;
use vstd::prelude::*;

verus! {

/// Blank metadata holds no remark, no error and nothing about an earlier value.
pub proof fn law_blank_metadata_says_nothing()
    ensures
        MetaModel::blank().remarks.len() == 0,
        MetaModel::blank().errors.len() == 0,
        MetaModel::blank().original_length is None,
        MetaModel::blank().original_value is None,
{
}

/// Noting an error adds it behind those that there are, and touches nothing else but
/// the value that it replaced.
pub proof fn law_errors_are_noted_in_order(
    meta: MetaModel,
    error: Seq<char>,
    value: Option<ValueModel>,
)
    ensures
        ({
            let after = meta.with_error(error, value);
            &&& after.errors.len() == meta.errors.len() + 1
            &&& after.errors.last() == error
            &&& after.errors.drop_last() == meta.errors
            &&& after.remarks == meta.remarks
            &&& after.original_length == meta.original_length
            &&& after.original_value == (match value {
                Some(replaced) => Some(replaced),
                None => meta.original_value,
            })
        }),
{
    assert(meta.with_error(error, value).errors.drop_last() =~= meta.errors);
}

/// How a value and its metadata are put together, and how one of them is replaced.
pub proof fn law_value_and_metadata<V>(given: Ann<V>, value: V)
    ensures
        Ann::of(value).value == Some(value),
        Ann::of(value).meta == MetaModel::blank(),
        Ann::<V>::missing().value is None,
        Ann::<V>::missing().meta == MetaModel::blank(),
        given.with(value).value == Some(value),
        given.with(value).meta == given.meta,
        given.cleared().value is None,
        given.cleared().meta == given.meta,
        given.or(value).value == (match given.value {
            Some(present) => Some(present),
            None => Some(value),
        }),
        given.or(value).meta == given.meta,
{
}

/// A value is shown with its metadata, a missing one as missing.
pub proof fn law_annotated_value_is_shown<T: DeepView>(given: Annotated<T>)
    ensures
        given.deep_view().meta == given.1.deep_view(),
        match given.0 {
            Some(value) => given.deep_view().value == Some(value.deep_view()),
            None => given.deep_view().value is None,
        },
{
}

/// All of the metadata is shown.
pub proof fn law_metadata_is_shown(meta: Meta, remark: Remark)
    ensures
        meta.deep_view().errors.len() == meta.errors@.len(),
        forall|i: int|
            0 <= i < meta.errors@.len() ==> #[trigger] meta.deep_view().errors[i]
                == meta.errors@[i]@,
        meta.deep_view().remarks.len() == meta.remarks@.len(),
        forall|i: int|
            0 <= i < meta.remarks@.len() ==> #[trigger] meta.deep_view().remarks[i]
                == meta.remarks@[i].deep_view(),
        meta.deep_view().original_length == meta.original_length,
        match meta.original_value {
            Some(value) => meta.deep_view().original_value == Some(value.deep_view()),
            None => meta.deep_view().original_value is None,
        },
        remark.deep_view().ty == remark.ty,
        remark.deep_view().rule_id == remark.rule_id@,
        remark.deep_view().range == remark.range,
{
}

/// Texts are shown by their characters, and other values as they are.
pub proof fn law_texts_are_shown(
    text: String,
    value: Value,
    address: IpAddr,
    message: JsonLenientString,
    auth: StoreAuth,
)
    ensures
        Value::String(text).deep_view() == ValueModel::Text(text@),
        !(value is String) ==> value.deep_view() == ValueModel::Other(value),
        address.deep_view() == address.0@,
        message.deep_view() == message.0@,
        auth.deep_view().client == auth.client@,
        auth.deep_view().is_public == auth.is_public,
{
}

/// Lists are shown item by item.
pub proof fn law_lists_are_shown<T: DeepView>(tags: Tags, list: Values<T>)
    ensures
        tags.deep_view().len() == tags.0@.len(),
        forall|i: int|
            0 <= i < tags.0@.len() ==> #[trigger] tags.deep_view()[i] == tags.0@[i].deep_view(),
        list.deep_view().values == list.values.deep_view(),
        list.deep_view().other == list.other.deep_view(),
{
}

/// A time is well formed if it is not before the start of 1970 and its fraction is less
/// than a second.
pub proof fn law_time_is_well_formed(time: Timestamp)
    ensures
        time.well_formed() <==> time.seconds >= 0 && time.nanoseconds <= 999_999_999,
{
}

/// Every attribute of an os context is shown, and without any nothing is known.
pub proof fn law_os_context_is_shown(given: OsContext)
    ensures
        given.deep_view().name == given.name.deep_view(),
        given.deep_view().other == given.other.deep_view(),
        OsContextModel::blank().name.value is None,
        OsContextModel::blank().name.meta == MetaModel::blank(),
        OsContextModel::blank().other == Map::<Seq<char>, Ann<ValueModel>>::empty(),
{
}

/// Every attribute of a contexts is shown, and without any nothing is known.
pub proof fn law_contexts_is_shown(given: Contexts)
    ensures
        given.deep_view().os == given.os.deep_view(),
        given.deep_view().other == given.other.deep_view(),
        ContextsModel::blank().os.value is None,
        ContextsModel::blank().os.meta == MetaModel::blank(),
        ContextsModel::blank().other == Map::<Seq<char>, Ann<ValueModel>>::empty(),
{
}

/// Every attribute of a system sdk info is shown, and without any nothing is known.
pub proof fn law_system_sdk_info_is_shown(given: SystemSdkInfo)
    ensures
        given.deep_view().sdk_name == given.sdk_name.deep_view(),
        given.deep_view().other == given.other.deep_view(),
        SystemSdkInfoModel::blank().sdk_name.value is None,
        SystemSdkInfoModel::blank().sdk_name.meta == MetaModel::blank(),
        SystemSdkInfoModel::blank().other == Map::<Seq<char>, Ann<ValueModel>>::empty(),
{
}

/// Every attribute of a debug meta is shown, and without any nothing is known.
pub proof fn law_debug_meta_is_shown(given: DebugMeta)
    ensures
        given.deep_view().system_sdk == given.system_sdk.deep_view(),
        given.deep_view().other == given.other.deep_view(),
        DebugMetaModel::blank().system_sdk.value is None,
        DebugMetaModel::blank().system_sdk.meta == MetaModel::blank(),
        DebugMetaModel::blank().other == Map::<Seq<char>, Ann<ValueModel>>::empty(),
{
}

/// Every attribute of a posix signal is shown, and without any nothing is known.
pub proof fn law_posix_signal_is_shown(given: PosixSignal)
    ensures
        given.deep_view().number == given.number.deep_view(),
        given.deep_view().name == given.name.deep_view(),
        given.deep_view().other == given.other.deep_view(),
        PosixSignalModel::blank().number.value is None,
        PosixSignalModel::blank().number.meta == MetaModel::blank(),
        PosixSignalModel::blank().name.value is None,
        PosixSignalModel::blank().name.meta == MetaModel::blank(),
        PosixSignalModel::blank().other == Map::<Seq<char>, Ann<ValueModel>>::empty(),
{
}

/// Every attribute of a mach exception is shown, and without any nothing is known.
pub proof fn law_mach_exception_is_shown(given: MachException)
    ensures
        given.deep_view().ty == given.ty.deep_view(),
        given.deep_view().name == given.name.deep_view(),
        given.deep_view().other == given.other.deep_view(),
        MachExceptionModel::blank().ty.value is None,
        MachExceptionModel::blank().ty.meta == MetaModel::blank(),
        MachExceptionModel::blank().name.value is None,
        MachExceptionModel::blank().name.meta == MetaModel::blank(),
        MachExceptionModel::blank().other == Map::<Seq<char>, Ann<ValueModel>>::empty(),
{
}

/// Every attribute of a mechanism meta is shown, and without any nothing is known.
pub proof fn law_mechanism_meta_is_shown(given: MechanismMeta)
    ensures
        given.deep_view().signal == given.signal.deep_view(),
        given.deep_view().mach_exception == given.mach_exception.deep_view(),
        given.deep_view().other == given.other.deep_view(),
        MechanismMetaModel::blank().signal.value is None,
        MechanismMetaModel::blank().signal.meta == MetaModel::blank(),
        MechanismMetaModel::blank().mach_exception.value is None,
        MechanismMetaModel::blank().mach_exception.meta == MetaModel::blank(),
        MechanismMetaModel::blank().other == Map::<Seq<char>, Ann<ValueModel>>::empty(),
{
}

/// Every attribute of a mechanism is shown, and without any nothing is known.
pub proof fn law_mechanism_is_shown(given: Mechanism)
    ensures
        given.deep_view().ty == given.ty.deep_view(),
        given.deep_view().meta == given.meta.deep_view(),
        given.deep_view().other == given.other.deep_view(),
        MechanismModel::blank().ty.value is None,
        MechanismModel::blank().ty.meta == MetaModel::blank(),
        MechanismModel::blank().meta.value is None,
        MechanismModel::blank().meta.meta == MetaModel::blank(),
        MechanismModel::blank().other == Map::<Seq<char>, Ann<ValueModel>>::empty(),
{
}

/// Every attribute of a frame is shown, and without any nothing is known.
pub proof fn law_frame_is_shown(given: Frame)
    ensures
        given.deep_view().function == given.function.deep_view(),
        given.deep_view().symbol == given.symbol.deep_view(),
        given.deep_view().filename == given.filename.deep_view(),
        given.deep_view().abs_path == given.abs_path.deep_view(),
        given.deep_view().line == given.line.deep_view(),
        given.deep_view().pre_lines == given.pre_lines.deep_view(),
        given.deep_view().post_lines == given.post_lines.deep_view(),
        given.deep_view().in_app == given.in_app.deep_view(),
        given.deep_view().other == given.other.deep_view(),
        FrameModel::blank().function.value is None,
        FrameModel::blank().function.meta == MetaModel::blank(),
        FrameModel::blank().symbol.value is None,
        FrameModel::blank().symbol.meta == MetaModel::blank(),
        FrameModel::blank().filename.value is None,
        FrameModel::blank().filename.meta == MetaModel::blank(),
        FrameModel::blank().abs_path.value is None,
        FrameModel::blank().abs_path.meta == MetaModel::blank(),
        FrameModel::blank().line.value is None,
        FrameModel::blank().line.meta == MetaModel::blank(),
        FrameModel::blank().pre_lines.value is None,
        FrameModel::blank().pre_lines.meta == MetaModel::blank(),
        FrameModel::blank().post_lines.value is None,
        FrameModel::blank().post_lines.meta == MetaModel::blank(),
        FrameModel::blank().in_app.value is None,
        FrameModel::blank().in_app.meta == MetaModel::blank(),
        FrameModel::blank().other == Map::<Seq<char>, Ann<ValueModel>>::empty(),
{
}

/// Every attribute of a stacktrace is shown, and without any nothing is known.
pub proof fn law_stacktrace_is_shown(given: Stacktrace)
    ensures
        given.deep_view().frames == given.frames.deep_view(),
        given.deep_view().other == given.other.deep_view(),
        StacktraceModel::blank().frames.value is None,
        StacktraceModel::blank().frames.meta == MetaModel::blank(),
        StacktraceModel::blank().other == Map::<Seq<char>, Ann<ValueModel>>::empty(),
{
}

/// Every attribute of an exception is shown, and without any nothing is known.
pub proof fn law_exception_is_shown(given: Exception)
    ensures
        given.deep_view().ty == given.ty.deep_view(),
        given.deep_view().value == given.value.deep_view(),
        given.deep_view().stacktrace == given.stacktrace.deep_view(),
        given.deep_view().raw_stacktrace == given.raw_stacktrace.deep_view(),
        given.deep_view().mechanism == given.mechanism.deep_view(),
        given.deep_view().other == given.other.deep_view(),
        ExceptionModel::blank().ty.value is None,
        ExceptionModel::blank().ty.meta == MetaModel::blank(),
        ExceptionModel::blank().value.value is None,
        ExceptionModel::blank().value.meta == MetaModel::blank(),
        ExceptionModel::blank().stacktrace.value is None,
        ExceptionModel::blank().stacktrace.meta == MetaModel::blank(),
        ExceptionModel::blank().raw_stacktrace.value is None,
        ExceptionModel::blank().raw_stacktrace.meta == MetaModel::blank(),
        ExceptionModel::blank().mechanism.value is None,
        ExceptionModel::blank().mechanism.meta == MetaModel::blank(),
        ExceptionModel::blank().other == Map::<Seq<char>, Ann<ValueModel>>::empty(),
{
}

/// Every attribute of a breadcrumb is shown, and without any nothing is known.
pub proof fn law_breadcrumb_is_shown(given: Breadcrumb)
    ensures
        given.deep_view().ty == given.ty.deep_view(),
        given.deep_view().level == given.level.deep_view(),
        given.deep_view().other == given.other.deep_view(),
        BreadcrumbModel::blank().ty.value is None,
        BreadcrumbModel::blank().ty.meta == MetaModel::blank(),
        BreadcrumbModel::blank().level.value is None,
        BreadcrumbModel::blank().level.meta == MetaModel::blank(),
        BreadcrumbModel::blank().other == Map::<Seq<char>, Ann<ValueModel>>::empty(),
{
}

/// Every attribute of a request is shown, and without any nothing is known.
pub proof fn law_request_is_shown(given: Request)
    ensures
        given.deep_view().env == given.env.deep_view(),
        given.deep_view().other == given.other.deep_view(),
        RequestModel::blank().env.value is None,
        RequestModel::blank().env.meta == MetaModel::blank(),
        RequestModel::blank().other == Map::<Seq<char>, Ann<ValueModel>>::empty(),
{
}

/// Every attribute of a user is shown, and without any nothing is known.
pub proof fn law_user_is_shown(given: User)
    ensures
        given.deep_view().ip_address == given.ip_address.deep_view(),
        given.deep_view().other == given.other.deep_view(),
        UserModel::blank().ip_address.value is None,
        UserModel::blank().ip_address.meta == MetaModel::blank(),
        UserModel::blank().other == Map::<Seq<char>, Ann<ValueModel>>::empty(),
{
}

/// Every attribute of a client sdk info is shown, and without any nothing is known.
pub proof fn law_client_sdk_info_is_shown(given: ClientSdkInfo)
    ensures
        given.deep_view().name == given.name.deep_view(),
        given.deep_view().version == given.version.deep_view(),
        given.deep_view().other == given.other.deep_view(),
        ClientSdkInfoModel::blank().name.value is None,
        ClientSdkInfoModel::blank().name.meta == MetaModel::blank(),
        ClientSdkInfoModel::blank().version.value is None,
        ClientSdkInfoModel::blank().version.meta == MetaModel::blank(),
        ClientSdkInfoModel::blank().other == Map::<Seq<char>, Ann<ValueModel>>::empty(),
{
}

/// Every attribute of an event is shown, and without any nothing is known.
pub proof fn law_event_is_shown(given: Event)
    ensures
        given.deep_view().project == given.project.deep_view(),
        given.deep_view().key_id == given.key_id.deep_view(),
        given.deep_view().version == given.version.deep_view(),
        given.deep_view().ty == given.ty.deep_view(),
        given.deep_view().level == given.level.deep_view(),
        given.deep_view().culprit == given.culprit.deep_view(),
        given.deep_view().logger == given.logger.deep_view(),
        given.deep_view().platform == given.platform.deep_view(),
        given.deep_view().timestamp == given.timestamp.deep_view(),
        given.deep_view().received == given.received.deep_view(),
        given.deep_view().release == given.release.deep_view(),
        given.deep_view().dist == given.dist.deep_view(),
        given.deep_view().environment == given.environment.deep_view(),
        given.deep_view().tags == given.tags.deep_view(),
        given.deep_view().extra == given.extra.deep_view(),
        given.deep_view().errors == given.errors.deep_view(),
        given.deep_view().user == given.user.deep_view(),
        given.deep_view().request == given.request.deep_view(),
        given.deep_view().contexts == given.contexts.deep_view(),
        given.deep_view().debug_meta == given.debug_meta.deep_view(),
        given.deep_view().client_sdk == given.client_sdk.deep_view(),
        given.deep_view().breadcrumbs == given.breadcrumbs.deep_view(),
        given.deep_view().exceptions == given.exceptions.deep_view(),
        given.deep_view().stacktrace == given.stacktrace.deep_view(),
        given.deep_view().csp == given.csp.deep_view(),
        given.deep_view().hpkp == given.hpkp.deep_view(),
        given.deep_view().expectct == given.expectct.deep_view(),
        given.deep_view().expectstaple == given.expectstaple.deep_view(),
        given.deep_view().other == given.other.deep_view(),
        EventModel::blank().project.value is None,
        EventModel::blank().project.meta == MetaModel::blank(),
        EventModel::blank().key_id.value is None,
        EventModel::blank().key_id.meta == MetaModel::blank(),
        EventModel::blank().version.value is None,
        EventModel::blank().version.meta == MetaModel::blank(),
        EventModel::blank().ty.value is None,
        EventModel::blank().ty.meta == MetaModel::blank(),
        EventModel::blank().level.value is None,
        EventModel::blank().level.meta == MetaModel::blank(),
        EventModel::blank().culprit.value is None,
        EventModel::blank().culprit.meta == MetaModel::blank(),
        EventModel::blank().logger.value is None,
        EventModel::blank().logger.meta == MetaModel::blank(),
        EventModel::blank().platform.value is None,
        EventModel::blank().platform.meta == MetaModel::blank(),
        EventModel::blank().timestamp.value is None,
        EventModel::blank().timestamp.meta == MetaModel::blank(),
        EventModel::blank().received.value is None,
        EventModel::blank().received.meta == MetaModel::blank(),
        EventModel::blank().release.value is None,
        EventModel::blank().release.meta == MetaModel::blank(),
        EventModel::blank().dist.value is None,
        EventModel::blank().dist.meta == MetaModel::blank(),
        EventModel::blank().environment.value is None,
        EventModel::blank().environment.meta == MetaModel::blank(),
        EventModel::blank().tags.value is None,
        EventModel::blank().tags.meta == MetaModel::blank(),
        EventModel::blank().extra.value is None,
        EventModel::blank().extra.meta == MetaModel::blank(),
        EventModel::blank().errors.value is None,
        EventModel::blank().errors.meta == MetaModel::blank(),
        EventModel::blank().user.value is None,
        EventModel::blank().user.meta == MetaModel::blank(),
        EventModel::blank().request.value is None,
        EventModel::blank().request.meta == MetaModel::blank(),
        EventModel::blank().contexts.value is None,
        EventModel::blank().contexts.meta == MetaModel::blank(),
        EventModel::blank().debug_meta.value is None,
        EventModel::blank().debug_meta.meta == MetaModel::blank(),
        EventModel::blank().client_sdk.value is None,
        EventModel::blank().client_sdk.meta == MetaModel::blank(),
        EventModel::blank().breadcrumbs.value is None,
        EventModel::blank().breadcrumbs.meta == MetaModel::blank(),
        EventModel::blank().exceptions.value is None,
        EventModel::blank().exceptions.meta == MetaModel::blank(),
        EventModel::blank().stacktrace.value is None,
        EventModel::blank().stacktrace.meta == MetaModel::blank(),
        EventModel::blank().csp.value is None,
        EventModel::blank().csp.meta == MetaModel::blank(),
        EventModel::blank().hpkp.value is None,
        EventModel::blank().hpkp.meta == MetaModel::blank(),
        EventModel::blank().expectct.value is None,
        EventModel::blank().expectct.meta == MetaModel::blank(),
        EventModel::blank().expectstaple.value is None,
        EventModel::blank().expectstaple.meta == MetaModel::blank(),
        EventModel::blank().other == Map::<Seq<char>, Ann<ValueModel>>::empty(),
{
}

} // verus!
