//! The walk through an event that gives a processor each part of it to rewrite.

use crate::annotated::{Ann, Annotated, MetaModel, Remark, RemarkModel, RemarkType};
use crate::protocol::{
    Breadcrumb, BreadcrumbModel, ClientSdkInfo, ClientSdkInfoModel, Event, EventModel, Exception,
    ExceptionModel, Frame, FrameModel, Request, RequestModel, Stacktrace, StacktraceModel,
    Timestamp, User, UserModel, Values, ValuesModel,
};
use vstd::prelude::*;

verus! {

/// What stands for the end of a text that was cut.
pub const ELLIPSIS: &'static str = "...";

/// The rule that is named in the remark on a cut.
pub const LIMIT_RULE: &'static str = "!limit";

/// How long a text may be.
#[derive(Clone, Copy, Debug, PartialEq, Eq, Structural)]
pub enum CapSize {
    EnumLike,
    Summary,
    Message,
    Symbol,
    Path,
    ShortPath,
}

impl CapSize {
    /// The length to which a text is cut.
    pub open spec fn limit(self) -> nat {
        match self {
            CapSize::EnumLike => 128,
            CapSize::Summary => 1024,
            CapSize::Message => 8196,
            CapSize::Symbol => 256,
            CapSize::Path => 256,
            CapSize::ShortPath => 128,
        }
    }

    /// By how much a text may exceed that length before it is cut.
    pub open spec fn grace(self) -> nat {
        match self {
            CapSize::EnumLike => 0,
            CapSize::Summary => 100,
            CapSize::Message => 200,
            CapSize::Symbol => 20,
            CapSize::Path => 40,
            CapSize::ShortPath => 20,
        }
    }

    /// The length to which a text is cut, in characters.
    pub fn max_chars(self) -> (res: usize)
        ensures
            res == self.limit(),
    {
        match self {
            CapSize::EnumLike => 128,
            CapSize::Summary => 1024,
            CapSize::Message => 8196,
            CapSize::Symbol => 256,
            CapSize::Path => 256,
            CapSize::ShortPath => 128,
        }
    }

    /// By how many characters a text may exceed that length before it is cut.
    pub fn grace_chars(self) -> (res: usize)
        ensures
            res == self.grace(),
    {
        match self {
            CapSize::EnumLike => 0,
            CapSize::Summary => 100,
            CapSize::Message => 200,
            CapSize::Symbol => 20,
            CapSize::Path => 40,
            CapSize::ShortPath => 20,
        }
    }
}

/// A text cut to the limit where it is longer than limit and grace together: its
/// end gives way to the ellipsis, and the metadata tells of it.
pub open spec fn capped(text: Ann<Seq<char>>, cap: CapSize) -> Ann<Seq<char>> {
    match text.value {
        Some(chars) => if chars.len() <= cap.limit() + cap.grace() {
            text
        } else {
            let kept = cap.limit() - 3;
            Ann {
                value: Some(chars.take(kept) + ELLIPSIS@),
                meta: MetaModel {
                    remarks: text.meta.remarks.push(
                        RemarkModel {
                            ty: RemarkType::Substituted,
                            rule_id: LIMIT_RULE@,
                            range: (kept as usize, cap.limit() as usize),
                        },
                    ),
                    original_length: if text.meta.original_length is None {
                        Some(chars.len() as usize)
                    } else {
                        text.meta.original_length
                    },
                    ..text.meta
                },
            }
        },
        None => text,
    }
}

impl Annotated<String> {
    /// Cuts the text where it is too long.
    pub fn trim_string(self, cap: CapSize) -> (res: Annotated<String>)
        ensures
            res.deep_view() == capped(self.deep_view(), cap),
    {
        let limit: usize = cap.max_chars();
        let grace: usize = cap.grace_chars();
        let Annotated(value, meta) = self;
        match value {
            Some(text) => {
                let length: usize = text.as_str().unicode_len();
                if length <= limit + grace {
                    return Annotated(Some(text), meta);
                }
                let kept: String = text.as_str().substring_char(0, limit - 3).to_owned();
                let cut: String = kept.concat(ELLIPSIS);
                let mut meta = meta;
                meta.add_remark(
                    Remark {
                        ty: RemarkType::Substituted,
                        rule_id: LIMIT_RULE.to_owned(),
                        range: (limit - 3, limit),
                    },
                );
                if meta.original_length.is_none() {
                    meta.original_length = Some(length);
                }
                assert(text@.subrange(0, limit - 3) =~= text@.take(limit - 3));
                Annotated(Some(cut), meta)
            },
            None => Annotated(None, meta),
        }
    }
}

/// What is laid down about a part of an event, apart from its value.
#[derive(Clone, Copy, Debug, PartialEq, Eq, Structural)]
pub struct FieldAttrs {
    /// How long a text may be, where that is limited.
    pub cap_size: Option<CapSize>,
}

/// Where in the event a processor is at work.
#[derive(Clone, Copy, Debug, PartialEq, Eq, Structural)]
pub struct ProcessingState {
    pub attrs: FieldAttrs,
}

impl ProcessingState {
    /// A part of which nothing is laid down.
    pub open spec fn plain() -> ProcessingState {
        ProcessingState { attrs: FieldAttrs { cap_size: None } }
    }

    /// A text of limited length.
    pub open spec fn limited(cap: CapSize) -> ProcessingState {
        ProcessingState { attrs: FieldAttrs { cap_size: Some(cap) } }
    }

    /// The state at the value that is handed in.
    pub fn root() -> (res: ProcessingState)
        ensures
            res == ProcessingState::plain(),
    {
        ProcessingState { attrs: FieldAttrs { cap_size: None } }
    }

    /// The state at a part with these attributes.
    pub fn enter(&self, attrs: FieldAttrs) -> (res: ProcessingState)
        ensures
            res.attrs == attrs,
    {
        ProcessingState { attrs }
    }

    /// What is laid down about the part.
    pub fn attrs(&self) -> (res: FieldAttrs)
        ensures
            res == self.attrs,
    {
        self.attrs
    }
}

/// What the clock shows while an event is processed.
pub struct Clock {
    /// The time given to an event that has none.
    pub created: Timestamp,
    /// The time at which the event is received.
    pub received: Timestamp,
}

impl Clock {
    pub open spec fn well_formed(self) -> bool {
        self.created.well_formed() && self.received.well_formed()
    }
}

/// Rewrites the parts of an event.
///
/// For each method there is a specification function, named after the part, that
/// says what the method makes of its argument.
pub trait Processor {
    spec fn string_of(&self, value: Ann<Seq<char>>, state: ProcessingState) -> Ann<Seq<char>>;

    spec fn event_of(&self, value: Ann<EventModel>, state: ProcessingState, clock: Clock) -> Ann<
        EventModel,
    >;

    spec fn breadcrumb_of(&self, value: Ann<BreadcrumbModel>, state: ProcessingState) -> Ann<
        BreadcrumbModel,
    >;

    spec fn request_of(&self, value: Ann<RequestModel>, state: ProcessingState) -> Ann<
        RequestModel,
    >;

    spec fn user_of(&self, value: Ann<UserModel>, state: ProcessingState) -> Ann<UserModel>;

    spec fn client_sdk_info_of(
        &self,
        value: Ann<ClientSdkInfoModel>,
        state: ProcessingState,
    ) -> Ann<ClientSdkInfoModel>;

    spec fn exception_of(&self, value: Ann<ExceptionModel>, state: ProcessingState) -> Ann<
        ExceptionModel,
    >;

    spec fn frame_of(&self, value: Ann<FrameModel>, state: ProcessingState) -> Ann<FrameModel>;

    fn process_string(&self, value: Annotated<String>, state: ProcessingState) -> (res: Annotated<
        String,
    >)
        ensures
            res.deep_view() == self.string_of(value.deep_view(), state),
    ;

    fn process_event(&self, event: Annotated<Event>, state: ProcessingState) -> (res: Annotated<
        Event,
    >)
        ensures
            exists|clock: Clock| #[trigger]
                clock.well_formed() && res.deep_view() == self.event_of(
                    event.deep_view(),
                    state,
                    clock,
                ),
    ;

    fn process_breadcrumb(&self, breadcrumb: Annotated<Breadcrumb>, state: ProcessingState) -> (res:
        Annotated<Breadcrumb>)
        ensures
            res.deep_view() == self.breadcrumb_of(breadcrumb.deep_view(), state),
    ;

    fn process_request(&self, request: Annotated<Request>, state: ProcessingState) -> (res:
        Annotated<Request>)
        ensures
            res.deep_view() == self.request_of(request.deep_view(), state),
    ;

    fn process_user(&self, user: Annotated<User>, state: ProcessingState) -> (res: Annotated<User>)
        ensures
            res.deep_view() == self.user_of(user.deep_view(), state),
    ;

    fn process_client_sdk_info(&self, info: Annotated<ClientSdkInfo>, state: ProcessingState) -> (res:
        Annotated<ClientSdkInfo>)
        ensures
            res.deep_view() == self.client_sdk_info_of(info.deep_view(), state),
    ;

    fn process_exception(&self, exception: Annotated<Exception>, state: ProcessingState) -> (res:
        Annotated<Exception>)
        ensures
            res.deep_view() == self.exception_of(exception.deep_view(), state),
    ;

    fn process_frame(&self, frame: Annotated<Frame>, state: ProcessingState) -> (res: Annotated<
        Frame,
    >)
        ensures
            res.deep_view() == self.frame_of(frame.deep_view(), state),
    ;
}

/// A list with each of its values walked.
pub open spec fn walked_values<V>(
    list: Ann<ValuesModel<V>>,
    walked: spec_fn(Ann<V>) -> Ann<V>,
) -> Ann<ValuesModel<V>> {
    match list.value {
        Some(found) => list.with(
            ValuesModel {
                values: match found.values.value {
                    Some(values) => found.values.with(values.map_values(walked)),
                    None => found.values,
                },
                ..found
            },
        ),
        None => list,
    }
}

/// A stack trace with each of its frames rewritten.
pub open spec fn walked_stacktrace<P: Processor>(processor: P, stacktrace: Ann<StacktraceModel>) -> Ann<
    StacktraceModel,
> {
    match stacktrace.value {
        Some(found) => stacktrace.with(
            StacktraceModel {
                frames: match found.frames.value {
                    Some(frames) => found.frames.with(
                        frames.map_values(
                            |frame: Ann<FrameModel>|
                                processor.frame_of(frame, ProcessingState::plain()),
                        ),
                    ),
                    None => found.frames,
                },
                ..found
            },
        ),
        None => stacktrace,
    }
}

/// An exception with its stack traces walked and then rewritten itself.
pub open spec fn walked_exception<P: Processor>(
    processor: P,
    exception: Ann<ExceptionModel>,
    state: ProcessingState,
) -> Ann<ExceptionModel> {
    processor.exception_of(
        match exception.value {
            Some(found) => exception.with(
                ExceptionModel {
                    stacktrace: walked_stacktrace(processor, found.stacktrace),
                    raw_stacktrace: walked_stacktrace(processor, found.raw_stacktrace),
                    ..found
                },
            ),
            None => exception,
        },
        state,
    )
}

/// The parts of an event, each walked.
pub open spec fn walked_parts<P: Processor>(processor: P, event: EventModel) -> EventModel {
    let plain = ProcessingState::plain();
    EventModel {
        culprit: processor.string_of(event.culprit, ProcessingState::limited(CapSize::Symbol)),
        user: processor.user_of(event.user, plain),
        request: processor.request_of(event.request, plain),
        client_sdk: processor.client_sdk_info_of(event.client_sdk, plain),
        breadcrumbs: walked_values(
            event.breadcrumbs,
            |breadcrumb: Ann<BreadcrumbModel>| processor.breadcrumb_of(breadcrumb, plain),
        ),
        exceptions: walked_values(
            event.exceptions,
            |exception: Ann<ExceptionModel>| walked_exception(processor, exception, plain),
        ),
        stacktrace: walked_stacktrace(processor, event.stacktrace),
        ..event
    }
}

/// An event with its parts walked and then rewritten itself.
pub open spec fn walked_event<P: Processor>(
    processor: P,
    event: Ann<EventModel>,
    state: ProcessingState,
    clock: Clock,
) -> Ann<EventModel> {
    processor.event_of(
        match event.value {
            Some(found) => event.with(walked_parts(processor, found)),
            None => event,
        },
        state,
        clock,
    )
}

/// A value that a processor can be led through: first through its parts, then to
/// the value itself, whether it is present or not.
pub trait ProcessValue<P: Processor>: DeepView + Sized {
    /// Whether the walk through `value` can end in `res`.
    spec fn walks_to(
        value: Ann<<Self as DeepView>::V>,
        processor: P,
        state: ProcessingState,
        res: Ann<<Self as DeepView>::V>,
    ) -> bool;

    /// Leads a processor through the value.
    fn process_value(
        value: Annotated<Self>,
        processor: &P,
        state: ProcessingState,
    ) -> (res: Annotated<Self>)
        ensures
            Self::walks_to(value.deep_view(), *processor, state, res.deep_view()),
    ;
}

impl<P: Processor> ProcessValue<P> for String {
    open spec fn walks_to(
        value: Ann<Seq<char>>,
        processor: P,
        state: ProcessingState,
        res: Ann<Seq<char>>,
    ) -> bool {
        res == processor.string_of(value, state)
    }

    fn process_value(
        value: Annotated<String>,
        processor: &P,
        state: ProcessingState,
    ) -> (res: Annotated<String>) {
        processor.process_string(value, state)
    }
}

impl<P: Processor> ProcessValue<P> for Frame {
    open spec fn walks_to(
        value: Ann<FrameModel>,
        processor: P,
        state: ProcessingState,
        res: Ann<FrameModel>,
    ) -> bool {
        res == processor.frame_of(value, state)
    }

    fn process_value(
        value: Annotated<Frame>,
        processor: &P,
        state: ProcessingState,
    ) -> (res: Annotated<Frame>) {
        processor.process_frame(value, state)
    }
}

impl<P: Processor> ProcessValue<P> for Breadcrumb {
    open spec fn walks_to(
        value: Ann<BreadcrumbModel>,
        processor: P,
        state: ProcessingState,
        res: Ann<BreadcrumbModel>,
    ) -> bool {
        res == processor.breadcrumb_of(value, state)
    }

    fn process_value(
        value: Annotated<Breadcrumb>,
        processor: &P,
        state: ProcessingState,
    ) -> (res: Annotated<Breadcrumb>) {
        processor.process_breadcrumb(value, state)
    }
}

impl<P: Processor> ProcessValue<P> for Request {
    open spec fn walks_to(
        value: Ann<RequestModel>,
        processor: P,
        state: ProcessingState,
        res: Ann<RequestModel>,
    ) -> bool {
        res == processor.request_of(value, state)
    }

    fn process_value(
        value: Annotated<Request>,
        processor: &P,
        state: ProcessingState,
    ) -> (res: Annotated<Request>) {
        processor.process_request(value, state)
    }
}

impl<P: Processor> ProcessValue<P> for User {
    open spec fn walks_to(
        value: Ann<UserModel>,
        processor: P,
        state: ProcessingState,
        res: Ann<UserModel>,
    ) -> bool {
        res == processor.user_of(value, state)
    }

    fn process_value(value: Annotated<User>, processor: &P, state: ProcessingState) -> (res:
        Annotated<User>) {
        processor.process_user(value, state)
    }
}

impl<P: Processor> ProcessValue<P> for ClientSdkInfo {
    open spec fn walks_to(
        value: Ann<ClientSdkInfoModel>,
        processor: P,
        state: ProcessingState,
        res: Ann<ClientSdkInfoModel>,
    ) -> bool {
        res == processor.client_sdk_info_of(value, state)
    }

    fn process_value(
        value: Annotated<ClientSdkInfo>,
        processor: &P,
        state: ProcessingState,
    ) -> (res: Annotated<ClientSdkInfo>) {
        processor.process_client_sdk_info(value, state)
    }
}

/// Leads a processor through each item of a list.
fn process_items<T: ProcessValue<P>, P: Processor>(items: Vec<Annotated<T>>, processor: &P) -> (res:
    Vec<Annotated<T>>)
    ensures
        res@.len() == items@.len(),
        forall|i: int|
            0 <= i < items@.len() ==> T::walks_to(
                items@[i].deep_view(),
                *processor,
                ProcessingState::plain(),
                #[trigger] res@[i].deep_view(),
            ),
{
    let mut done: Vec<Annotated<T>> = Vec::new();
    for item in iter: items
        invariant
            iter.seq() == items@,
            done@.len() == iter.index(),
            forall|i: int|
                0 <= i < iter.index() ==> T::walks_to(
                    items@[i].deep_view(),
                    *processor,
                    ProcessingState::plain(),
                    #[trigger] done@[i].deep_view(),
                ),
    {
        done.push(T::process_value(item, processor, ProcessingState::root()));
    }
    done
}

/// Leads a processor through each value of a list of interface values.
fn process_values<T: ProcessValue<P>, P: Processor>(list: Annotated<Values<T>>, processor: &P) -> (res:
    Annotated<Values<T>>)
    ensures
        forall|walked: spec_fn(Ann<<T as DeepView>::V>) -> Ann<<T as DeepView>::V>|
            (forall|value: Ann<<T as DeepView>::V>, out: Ann<<T as DeepView>::V>| #[trigger]
                T::walks_to(value, *processor, ProcessingState::plain(), out) ==> out == walked(
                    value,
                )) ==> res.deep_view() == #[trigger] walked_values(list.deep_view(), walked),
{
    let Annotated(found, meta) = list;
    match found {
        Some(found) => {
            let Values { values, other } = found;
            let Annotated(values, values_meta) = values;
            match values {
                Some(values) => {
                    let done = process_items(values, processor);
                    let res = Annotated(
                        Some(Values { values: Annotated(Some(done), values_meta), other }),
                        meta,
                    );
                    assert forall|walked: spec_fn(Ann<<T as DeepView>::V>) -> Ann<<T as DeepView>::V>|
                        (forall|value: Ann<<T as DeepView>::V>, out: Ann<<T as DeepView>::V>|
                         #[trigger]
                            T::walks_to(value, *processor, ProcessingState::plain(), out) ==> out
                                == walked(value)) implies res.deep_view()
                        == #[trigger] walked_values(list.deep_view(), walked) by {
                        assert(done.deep_view() =~= values.deep_view().map_values(walked));
                    }
                    res
                },
                None => Annotated(
                    Some(Values { values: Annotated(None, values_meta), other }),
                    meta,
                ),
            }
        },
        None => Annotated(None, meta),
    }
}

impl<P: Processor> ProcessValue<P> for Stacktrace {
    open spec fn walks_to(
        value: Ann<StacktraceModel>,
        processor: P,
        state: ProcessingState,
        res: Ann<StacktraceModel>,
    ) -> bool {
        res == walked_stacktrace(processor, value)
    }

    fn process_value(
        value: Annotated<Stacktrace>,
        processor: &P,
        state: ProcessingState,
    ) -> (res: Annotated<Stacktrace>) {
        let Annotated(found, meta) = value;
        let found = match found {
            Some(stacktrace) => {
                let Stacktrace { frames, other } = stacktrace;
                let Annotated(frames, frames_meta) = frames;
                let frames = match frames {
                    Some(frames) => {
                        let done = process_items(frames, processor);
                        assert(done.deep_view() =~= frames.deep_view().map_values(
                            |frame: Ann<FrameModel>|
                                processor.frame_of(frame, ProcessingState::plain()),
                        ));
                        Some(done)
                    },
                    None => None,
                };
                Some(Stacktrace { frames: Annotated(frames, frames_meta), other })
            },
            None => None,
        };
        Annotated(found, meta)
    }
}

impl<P: Processor> ProcessValue<P> for Exception {
    open spec fn walks_to(
        value: Ann<ExceptionModel>,
        processor: P,
        state: ProcessingState,
        res: Ann<ExceptionModel>,
    ) -> bool {
        res == walked_exception(processor, value, state)
    }

    fn process_value(
        value: Annotated<Exception>,
        processor: &P,
        state: ProcessingState,
    ) -> (res: Annotated<Exception>) {
        let Annotated(found, meta) = value;
        let root = ProcessingState::root();
        let found = match found {
            Some(exception) => {
                let mut exception = exception;
                exception.stacktrace = Stacktrace::process_value(
                    exception.stacktrace,
                    processor,
                    root,
                );
                exception.raw_stacktrace = Stacktrace::process_value(
                    exception.raw_stacktrace,
                    processor,
                    root,
                );
                Some(exception)
            },
            None => None,
        };
        processor.process_exception(Annotated(found, meta), state)
    }
}

impl<P: Processor> ProcessValue<P> for Event {
    open spec fn walks_to(
        value: Ann<EventModel>,
        processor: P,
        state: ProcessingState,
        res: Ann<EventModel>,
    ) -> bool {
        exists|clock: Clock| #[trigger]
            clock.well_formed() && res == walked_event(processor, value, state, clock)
    }

    fn process_value(
        value: Annotated<Event>,
        processor: &P,
        state: ProcessingState,
    ) -> (res: Annotated<Event>) {
        let Annotated(found, meta) = value;
        let root = ProcessingState::root();
        let found = match found {
            Some(event) => {
                let symbol = root.enter(FieldAttrs { cap_size: Some(CapSize::Symbol) });
                let mut event = event;
                event.culprit = String::process_value(event.culprit, processor, symbol);
                event.user = User::process_value(event.user, processor, root);
                event.request = Request::process_value(event.request, processor, root);
                event.client_sdk = ClientSdkInfo::process_value(event.client_sdk, processor, root);
                event.breadcrumbs = process_values(event.breadcrumbs, processor);
                event.exceptions = process_values(event.exceptions, processor);
                event.stacktrace = Stacktrace::process_value(event.stacktrace, processor, root);
                Some(event)
            },
            None => None,
        };
        processor.process_event(Annotated(found, meta), state)
    }
}

/// Leads a processor through a value, from the parts to the whole.
pub fn process<T: ProcessValue<P>, P: Processor>(value: Annotated<T>, processor: &P) -> (res: Annotated<
    T,
>)
    ensures
        T::walks_to(value.deep_view(), *processor, ProcessingState::plain(), res.deep_view()),
{
    T::process_value(value, processor, ProcessingState::root())
}

} // verus!
