//! Where the walk through a value leads a processor, and in what order.

use crate::annotated::Ann;
use crate::processor::{
    walked_event, walked_parts, walked_stacktrace, CapSize, Clock, FieldAttrs, ProcessValue,
    ProcessingState, Processor,
};
use crate::protocol::{
    Breadcrumb, BreadcrumbModel, ClientSdkInfo, ClientSdkInfoModel, Event, EventModel, Exception,
    ExceptionModel, Frame, FrameModel, Request, RequestModel, Stacktrace, StacktraceModel, User,
    UserModel,
};
use vstd::prelude::*;

verus! {

/// A part without parts of its own is handed to the processor, and that is all. It is so
/// handed in whether it is present or not.
pub proof fn law_simple_parts_are_handed_in<P: Processor>(
    processor: P,
    state: ProcessingState,
    text: (Ann<Seq<char>>, Ann<Seq<char>>),
    frame: (Ann<FrameModel>, Ann<FrameModel>),
    breadcrumb: (Ann<BreadcrumbModel>, Ann<BreadcrumbModel>),
    request: (Ann<RequestModel>, Ann<RequestModel>),
    user: (Ann<UserModel>, Ann<UserModel>),
    info: (Ann<ClientSdkInfoModel>, Ann<ClientSdkInfoModel>),
)
    ensures
        <String as ProcessValue<P>>::walks_to(text.0, processor, state, text.1) <==> text.1
            == processor.string_of(text.0, state),
        <Frame as ProcessValue<P>>::walks_to(frame.0, processor, state, frame.1) <==> frame.1
            == processor.frame_of(frame.0, state),
        <Breadcrumb as ProcessValue<P>>::walks_to(breadcrumb.0, processor, state, breadcrumb.1)
            <==> breadcrumb.1 == processor.breadcrumb_of(breadcrumb.0, state),
        <Request as ProcessValue<P>>::walks_to(request.0, processor, state, request.1)
            <==> request.1 == processor.request_of(request.0, state),
        <User as ProcessValue<P>>::walks_to(user.0, processor, state, user.1) <==> user.1
            == processor.user_of(user.0, state),
        <ClientSdkInfo as ProcessValue<P>>::walks_to(info.0, processor, state, info.1) <==> info.1
            == processor.client_sdk_info_of(info.0, state),
{
}

/// Nothing is laid down about the value that is handed in, and of a text of limited
/// length just its limit.
pub proof fn law_states(cap: CapSize)
    ensures
        ProcessingState::plain().attrs.cap_size is None,
        ProcessingState::limited(cap).attrs.cap_size == Some(cap),
{
}

/// The times that a clock shows are well formed if each of them is.
pub proof fn law_clock_is_well_formed(clock: Clock)
    ensures
        clock.well_formed() <==> clock.created.well_formed() && clock.received.well_formed(),
{
}

/// The walk through a stack trace hands in each of its frames, and changes nothing else.
pub proof fn law_every_frame_is_handed_in<P: Processor>(
    processor: P,
    state: ProcessingState,
    given: Ann<StacktraceModel>,
    after: Ann<StacktraceModel>,
)
    requires
        <Stacktrace as ProcessValue<P>>::walks_to(given, processor, state, after),
    ensures
        after.meta == given.meta,
        after.value is Some <==> given.value is Some,
        given.value is Some ==> {
            let before = given.value->0.frames;
            let frames = after.value->0.frames;
            &&& after.value->0.other == given.value->0.other
            &&& frames.meta == before.meta
            &&& frames.value is Some <==> before.value is Some
            &&& before.value is Some ==> {
                &&& frames.value->0.len() == before.value->0.len()
                &&& forall|i: int|
                    0 <= i < before.value->0.len() ==> #[trigger] frames.value->0[i]
                        == processor.frame_of(
                        before.value->0[i],
                        ProcessingState { attrs: FieldAttrs { cap_size: None } },
                    )
            }
        },
{
}

/// The walk through an exception leads through its two stack traces and then hands in the
/// exception itself. The result is what is handed in.
pub proof fn law_exception_is_handed_in_after_its_parts<P: Processor>(
    processor: P,
    state: ProcessingState,
    given: Ann<ExceptionModel>,
    after: Ann<ExceptionModel>,
) -> (handed: Ann<ExceptionModel>)
    requires
        <Exception as ProcessValue<P>>::walks_to(given, processor, state, after),
    ensures
        after == processor.exception_of(handed, state),
        handed.meta == given.meta,
        handed.value is Some <==> given.value is Some,
        given.value is Some ==> {
            let before = given.value->0;
            let exception = handed.value->0;
            &&& <Stacktrace as ProcessValue<P>>::walks_to(
                before.stacktrace,
                processor,
                state,
                exception.stacktrace,
            )
            &&& <Stacktrace as ProcessValue<P>>::walks_to(
                before.raw_stacktrace,
                processor,
                state,
                exception.raw_stacktrace,
            )
            &&& exception.ty == before.ty
            &&& exception.value == before.value
            &&& exception.mechanism == before.mechanism
            &&& exception.other == before.other
        },
{
    match given.value {
        Some(found) => given.with(
            ExceptionModel {
                stacktrace: walked_stacktrace(processor, found.stacktrace),
                raw_stacktrace: walked_stacktrace(processor, found.raw_stacktrace),
                ..found
            },
        ),
        None => given,
    }
}

/// The walk through an event leads through each of its parts, changes nothing else, and
/// then hands in the event itself. The result is what is handed in, and what the clock
/// shows.
pub proof fn law_event_is_handed_in_after_its_parts<P: Processor>(
    processor: P,
    state: ProcessingState,
    given: Ann<EventModel>,
    after: Ann<EventModel>,
) -> (handed: (Ann<EventModel>, Clock))
    requires
        <Event as ProcessValue<P>>::walks_to(given, processor, state, after),
    ensures
        after == processor.event_of(handed.0, state, handed.1),
        handed.1.well_formed(),
        handed.0.meta == given.meta,
        handed.0.value is Some <==> given.value is Some,
        given.value is Some ==> {
            let plain = ProcessingState { attrs: FieldAttrs { cap_size: None } };
            let symbol = ProcessingState { attrs: FieldAttrs { cap_size: Some(CapSize::Symbol) } };
            let before = given.value->0;
            let event = handed.0.value->0;
            &&& event.culprit == processor.string_of(before.culprit, symbol)
            &&& event.user == processor.user_of(before.user, plain)
            &&& event.request == processor.request_of(before.request, plain)
            &&& event.client_sdk == processor.client_sdk_info_of(before.client_sdk, plain)
            &&& <Stacktrace as ProcessValue<P>>::walks_to(
                before.stacktrace,
                processor,
                plain,
                event.stacktrace,
            )
            &&& event.breadcrumbs.meta == before.breadcrumbs.meta
            &&& event.breadcrumbs.value is Some <==> before.breadcrumbs.value is Some
            &&& before.breadcrumbs.value is Some ==> {
                let list = before.breadcrumbs.value->0;
                let walked = event.breadcrumbs.value->0;
                &&& walked.other == list.other
                &&& walked.values.meta == list.values.meta
                &&& walked.values.value is Some <==> list.values.value is Some
                &&& list.values.value is Some ==> {
                    &&& walked.values.value->0.len() == list.values.value->0.len()
                    &&& forall|i: int|
                        0 <= i < list.values.value->0.len() ==> #[trigger] walked.values.value->0[i]
                            == processor.breadcrumb_of(list.values.value->0[i], plain)
                }
            }
            &&& event.exceptions.meta == before.exceptions.meta
            &&& event.exceptions.value is Some <==> before.exceptions.value is Some
            &&& before.exceptions.value is Some ==> {
                let list = before.exceptions.value->0;
                let walked = event.exceptions.value->0;
                &&& walked.other == list.other
                &&& walked.values.meta == list.values.meta
                &&& walked.values.value is Some <==> list.values.value is Some
                &&& list.values.value is Some ==> {
                    &&& walked.values.value->0.len() == list.values.value->0.len()
                    &&& forall|i: int|
                        0 <= i < list.values.value->0.len()
                            ==> <Exception as ProcessValue<P>>::walks_to(
                            list.values.value->0[i],
                            processor,
                            plain,
                            #[trigger] walked.values.value->0[i],
                        )
                }
            }
            &&& event == (EventModel {
                culprit: event.culprit,
                user: event.user,
                request: event.request,
                client_sdk: event.client_sdk,
                stacktrace: event.stacktrace,
                breadcrumbs: event.breadcrumbs,
                exceptions: event.exceptions,
                ..before
            })
        },
{
    let clock = choose|clock: Clock| #[trigger]
        clock.well_formed() && after == walked_event(processor, given, state, clock);
    match given.value {
        Some(found) => (given.with(walked_parts(processor, found)), clock),
        None => (given, clock),
    }
}

} // verus!
