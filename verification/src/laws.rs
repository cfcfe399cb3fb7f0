//! What holds of the normalization as a whole.

use crate::annotated::{Ann, MetaModel, ValueModel};
use crate::mechanism::{named_mechanism, os_hint, OsHint};
use crate::outside::{type_and_value, unicode_word, url_path, word_char};
use crate::processor::{
    capped, walked_event, walked_exception, walked_parts, walked_stacktrace, CapSize, Clock,
    ProcessingState, Processor,
};
use crate::protocol::{
    BreadcrumbModel, ClientSdkInfoModel, EventModel, ExceptionModel, FrameModel, MechanismModel,
    RequestModel, StacktraceModel, TagModel, UserModel, AUTO_ADDRESS,
};
use crate::store::{
    abs_path_of, belongs_to_exception, exceptions_of, filled_lines, groups_in, is_environment_tag,
    lacks_filename, leaves_address_open, listed_exceptions, named_exception, non_raw_frame,
    non_raw_stacktrace, normal_exception, other_tags, remote_address, runs_at_user, stacktrace_of,
    tag_value, tagged_environment, typed_value, url_like, with_stacktrace, StoreNormalizeProcessor,
    REMOTE_ADDRESS,
};
use crate::text::{first_index, trimmed, white_space};
use vstd::prelude::*;

verus! {

/// A text that went through a limit fits it, and the limit cuts it no further.
pub proof fn law_capped_text_fits(text: Ann<Seq<char>>, cap: CapSize)
    ensures
        capped(text, cap).value matches Some(chars) ==> chars.len() <= cap.limit() + cap.grace(),
        capped(capped(text, cap), cap) == capped(text, cap),
{
    reveal_strlit("...");
}

/// A cut text keeps the start of what it was, up to the ellipsis.
pub proof fn law_cut_text_keeps_its_start(text: Ann<Seq<char>>, cap: CapSize, i: int)
    requires
        text.value is Some,
        text.value->0.len() > cap.limit() + cap.grace(),
        0 <= i < cap.limit() - 3,
    ensures
        capped(text, cap).value->0.len() == cap.limit(),
        capped(text, cap).value->0[i] == text.value->0[i],
{
    reveal_strlit("...");
}

/// Whether completing the paths of a frame once more would change nothing: only a
/// frame without any path, but with metadata on its file name, takes longer.
pub open spec fn paths_settle(frame: Ann<FrameModel>) -> bool {
    match frame.value {
        Some(found) => {
            ||| found.abs_path.value is Some
            ||| found.filename.value is Some
            ||| found.filename.meta == MetaModel::blank()
        },
        None => true,
    }
}

/// Whether that holds of all frames of a stack trace.
pub open spec fn trace_settles(stacktrace: Ann<StacktraceModel>) -> bool {
    match stacktrace.value {
        Some(found) => match found.frames.value {
            Some(frames) => forall|i: int|
                0 <= i < frames.len() ==> paths_settle(#[trigger] frames[i]),
            None => true,
        },
        None => true,
    }
}

/// A frame that has both paths keeps them: a file name is not overwritten.
pub proof fn law_filename_is_not_overwritten(frame: Ann<FrameModel>)
    requires
        frame.value is Some,
        frame.value->0.filename.value is Some,
        frame.value->0.abs_path.value is Some,
    ensures
        non_raw_frame(frame) == frame,
{
}

/// A frame that has one of its paths gets both. The absolute path is the one that
/// it had, or else the file name as it was reported.
pub proof fn law_one_path_gives_both(frame: Ann<FrameModel>)
    requires
        frame.value is Some,
        frame.value->0.filename.value is Some || frame.value->0.abs_path.value is Some,
    ensures
        non_raw_frame(frame).value->0.filename.value is Some,
        non_raw_frame(frame).value->0.abs_path.value == (
        if frame.value->0.abs_path.value is Some {
            frame.value->0.abs_path.value
        } else {
            frame.value->0.filename.value
        }),
{
}

/// A frame without a file name takes the path of a URL for it, unless that path is
/// empty or only the root: then the absolute path is the file name.
pub proof fn law_url_path_becomes_filename(frame: Ann<FrameModel>)
    requires
        frame.value is Some,
        lacks_filename(frame.value->0),
        abs_path_of(frame.value->0).value is Some,
    ensures
        ({
            let abs_path = abs_path_of(frame.value->0).value->0;
            let path = url_path(abs_path);
            non_raw_frame(frame).value->0.filename == Ann::of(
                if url_like(abs_path) && path is Some && path->0.len() > 0 && path->0 != "/"@ {
                    path->0
                } else {
                    abs_path
                },
            )
        }),
{
}

/// Completing the paths of a frame leaves everything else as it is.
pub proof fn law_only_paths_are_completed(frame: Ann<FrameModel>)
    requires
        frame.value is Some,
    ensures
        non_raw_frame(frame).meta == frame.meta,
        non_raw_frame(frame).value == Some(
            FrameModel {
                abs_path: non_raw_frame(frame).value->0.abs_path,
                filename: non_raw_frame(frame).value->0.filename,
                ..frame.value->0
            },
        ),
{
}

/// Completing the paths of a frame a second time changes nothing.
pub proof fn law_frame_is_completed_once(frame: Ann<FrameModel>)
    requires
        paths_settle(frame),
    ensures
        non_raw_frame(non_raw_frame(frame)) == non_raw_frame(frame),
{
}

/// Completing the paths in a stack trace a second time changes nothing.
pub proof fn law_stacktrace_is_completed_once(stacktrace: Ann<StacktraceModel>)
    requires
        trace_settles(stacktrace),
    ensures
        non_raw_stacktrace(non_raw_stacktrace(stacktrace)) == non_raw_stacktrace(stacktrace),
{
    if let Some(found) = stacktrace.value {
        if let Some(frames) = found.frames.value {
            let once = |frame: Ann<FrameModel>| non_raw_frame(frame);
            assert forall|i: int| 0 <= i < frames.len() implies #[trigger] frames.map_values(
                once,
            ).map_values(once)[i] == frames.map_values(once)[i] by {
                law_frame_is_completed_once(frames[i]);
            }
            assert(frames.map_values(once).map_values(once) =~= frames.map_values(once));
        }
    }
}

/// Filling in the names in a mechanism keeps those that it has.
pub proof fn law_reported_names_are_kept(
    mechanism: MechanismModel,
    os: Option<OsHint>,
)
    requires
        mechanism.meta.value is Some,
    ensures
        ({
            let before = mechanism.meta.value->0;
            let after = named_mechanism(mechanism, os).meta.value->0;
            &&& before.signal.value matches Some(signal) ==> signal.name.value is Some
                ==> after.signal == before.signal
            &&& before.mach_exception.value matches Some(exception) ==> exception.name.value is Some
                ==> after.mach_exception == before.mach_exception
        }),
{
}

/// Filling in the names in a mechanism a second time changes nothing.
pub proof fn law_mechanism_is_named_once(mechanism: MechanismModel, os: Option<OsHint>)
    ensures
        named_mechanism(named_mechanism(mechanism, os), os) == named_mechanism(mechanism, os),
{
}

/// Where nothing tells the operating system, signals stay without a name, and Mach
/// exceptions get theirs all the same.
pub proof fn law_mach_exceptions_need_no_hint(mechanism: MechanismModel, os: OsHint)
    requires
        mechanism.meta.value is Some,
    ensures
        named_mechanism(mechanism, None).meta.value->0.signal == mechanism.meta.value->0.signal,
        named_mechanism(mechanism, None).meta.value->0.mach_exception == named_mechanism(
            mechanism,
            Some(os),
        ).meta.value->0.mach_exception,
{
}

/// A type that an exception has is kept, and so is then its message.
pub proof fn law_exception_type_is_kept(exception: ExceptionModel)
    requires
        exception.ty.value is Some,
    ensures
        normal_exception(exception).ty == exception.ty,
        normal_exception(exception).value == exception.value,
{
}

proof fn lemma_first_index_bounds(text: Seq<char>, separator: char)
    ensures
        0 <= first_index(text, separator) <= text.len(),
        first_index(text, separator) < text.len() ==> text[first_index(text, separator)]
            == separator,
        forall|i: int| 0 <= i < first_index(text, separator) ==> text[i] != separator,
    decreases text.len(),
{
    if text.len() > 0 && text.first() != separator {
        let rest = text.drop_first();
        lemma_first_index_bounds(rest, separator);
        assert forall|i: int| 0 <= i < first_index(text, separator) implies text[i]
            != separator by {
            if i > 0 {
                assert(text[i] == rest[i - 1]);
            }
        }
    }
}

/// A message that starts with a character that is in no word, as that of a JSON
/// object or array does, is not split on a colon.
pub proof fn law_json_message_is_not_split(exception: ExceptionModel)
    requires
        exception.value.value is Some,
        exception.value.value->0.len() > 0,
        !word_char(exception.value.value->0[0], |c: char| unicode_word(c)),
    ensures
        normal_exception(exception).ty == exception.ty,
        normal_exception(exception).value == exception.value,
{
    let text = exception.value.value->0;
    if type_and_value(text, |c: char| unicode_word(c)) is Some {
        assert(word_char(text[0], |c: char| unicode_word(c)));
    }
}

/// Where a message is split, its first colon separates the type from the rest, and
/// nothing but that colon and white space around the rest is lost.
pub proof fn law_split_message_holds_type_and_rest(exception: ExceptionModel)
    requires
        exception.ty.value is None,
        normal_exception(exception).ty.value is Some,
    ensures
        exception.value.value is Some,
        normal_exception(exception).value.value is Some,
        ({
            let text = exception.value.value->0;
            let ty = normal_exception(exception).ty.value->0;
            &&& 0 < ty.len() < text.len()
            &&& !ty.contains(':')
            &&& text == ty + seq![':'] + text.skip(ty.len() as int + 1)
            &&& normal_exception(exception).value.value->0 == trimmed(text.skip(ty.len() as int + 1))
        }),
{
    let text = exception.value.value->0;
    lemma_first_index_bounds(text, ':');
    let at = first_index(text, ':');
    assert(text =~= text.take(at) + seq![':'] + text.skip(at + 1));
    assert(!text.take(at).contains(':'));
}

proof fn lemma_trimmed(text: Seq<char>)
    ensures
        trimmed(text).len() > 0 ==> !white_space(trimmed(text).first())
            && !white_space(trimmed(text).last()),
    decreases text.len(),
{
    if text.len() > 0 && white_space(text.first()) {
        lemma_trimmed(text.drop_first());
    } else if text.len() > 0 && white_space(text.last()) {
        lemma_trimmed(text.drop_last());
    }
}

/// A message that was split has no white space at its ends.
pub proof fn law_split_message_is_trimmed(exception: ExceptionModel)
    requires
        exception.ty.value is None,
        normal_exception(exception).ty.value is Some,
        normal_exception(exception).value.value->0.len() > 0,
    ensures
        !white_space(normal_exception(exception).value.value->0.first()),
        !white_space(normal_exception(exception).value.value->0.last()),
{
    let text = exception.value.value->0;
    lemma_trimmed(text.skip(first_index(text, ':') + 1));
}

/// An exception that was processed has a type, a message or an error.
pub proof fn law_exception_says_something(
    processor: StoreNormalizeProcessor,
    exception: Ann<ExceptionModel>,
    state: ProcessingState,
)
    requires
        exception.value is Some,
    ensures
        ({
            let after = processor.exception_of(exception, state);
            ||| after.value->0.ty.value is Some
            ||| after.value->0.value.value is Some
            ||| after.meta.errors.len() > 0
        }),
{
}

/// Raw stack traces keep the paths of their frames.
pub proof fn law_raw_stacktrace_is_not_completed(
    processor: StoreNormalizeProcessor,
    exception: Ann<ExceptionModel>,
    state: ProcessingState,
)
    requires
        exception.value is Some,
    ensures
        processor.exception_of(exception, state).value->0.raw_stacktrace
            == exception.value->0.raw_stacktrace,
{
}

/// A frame that was processed says whether it belongs to the application, has no
/// question mark for a name, and has no gap in its source lines.
pub proof fn law_frame_is_presentable(
    processor: StoreNormalizeProcessor,
    frame: Ann<FrameModel>,
    state: ProcessingState,
)
    requires
        frame.value is Some,
    ensures
        ({
            let after = processor.frame_of(frame, state).value->0;
            &&& after.in_app.value is Some
            &&& after.function.value != Some("?"@)
            &&& after.symbol.value != Some("?"@)
            &&& after.pre_lines.value matches Some(lines) ==> forall|i: int|
                0 <= i < lines.len() ==> (#[trigger] lines[i]).value is Some
            &&& after.post_lines.value matches Some(lines) ==> forall|i: int|
                0 <= i < lines.len() ==> (#[trigger] lines[i]).value is Some
        }),
{
}

proof fn lemma_filter_twice(tags: Seq<TagModel>)
    ensures
        other_tags(other_tags(tags)) == other_tags(tags),
        tagged_environment(other_tags(tags)) is None,
        forall|i: int|
            0 <= i < other_tags(tags).len() ==> !is_environment_tag(#[trigger] other_tags(tags)[i]),
    decreases tags.len(),
{
    reveal(Seq::filter);
    if tags.len() > 0 {
        lemma_filter_twice(tags.drop_last());
        let rest = other_tags(tags.drop_last());
        if !is_environment_tag(tags.last()) {
            assert(other_tags(tags) == rest.push(tags.last()));
            assert(rest.push(tags.last()).drop_last() =~= rest);
        }
    }
}

/// An event without an environment takes it from its tags, and then no tag gives one.
pub proof fn law_environment_leaves_the_tags(
    processor: StoreNormalizeProcessor,
    event: EventModel,
    clock: Clock,
    i: int,
)
    requires
        event.environment.value is None,
        processor.normal_event(event, clock).tags.value is Some,
        0 <= i < processor.normal_event(event, clock).tags.value->0.len(),
    ensures
        !is_environment_tag(processor.normal_event(event, clock).tags.value->0[i]),
{
    lemma_filter_twice(event.tags.or(Seq::empty()).value->0);
}

proof fn lemma_tagged(tags: Seq<TagModel>, i: int)
    requires
        0 <= i < tags.len(),
        is_environment_tag(tags[i]),
        forall|j: int| i < j < tags.len() ==> !is_environment_tag(#[trigger] tags[j]),
    ensures
        tagged_environment(tags) == tag_value(tags[i]),
    decreases tags.len(),
{
    if i < tags.len() - 1 {
        assert(!is_environment_tag(tags[tags.len() - 1]));
        assert forall|j: int| i < j < tags.drop_last().len() implies !is_environment_tag(
            #[trigger] tags.drop_last()[j],
        ) by {
            assert(!is_environment_tag(tags[j]));
        }
        lemma_tagged(tags.drop_last(), i);
    }
}

/// Of several tags that give the environment, the last one counts.
pub proof fn law_last_environment_tag_counts(
    processor: StoreNormalizeProcessor,
    event: EventModel,
    clock: Clock,
    i: int,
)
    requires
        event.environment.value is None,
        event.tags.value is Some,
        0 <= i < event.tags.value->0.len(),
        is_environment_tag(event.tags.value->0[i]),
        forall|j: int|
            i < j < event.tags.value->0.len() ==> !is_environment_tag(
                #[trigger] event.tags.value->0[j],
            ),
    ensures
        processor.normal_event(event, clock).environment.value == tag_value(
            event.tags.value->0[i],
        ),
{
    lemma_tagged(event.tags.value->0, i);
}

/// An event that names its environment keeps it, and keeps its tags.
pub proof fn law_own_environment_is_kept(
    processor: StoreNormalizeProcessor,
    event: EventModel,
    clock: Clock,
)
    requires
        event.environment.value is Some,
    ensures
        processor.normal_event(event, clock).environment == event.environment,
        processor.normal_event(event, clock).tags == event.tags.or(Seq::empty()),
{
}

/// What every normalized event has, whatever was reported.
pub proof fn law_normalized_event_is_complete(
    processor: StoreNormalizeProcessor,
    event: EventModel,
    clock: Clock,
)
    ensures
        ({
            let after = processor.normal_event(event, clock);
            &&& after.level.value is Some
            &&& after.logger.value is Some
            &&& after.timestamp.value is Some
            &&& after.received.value == Some(clock.received)
            &&& after.extra.value is Some
            &&& after.errors.value is Some
            &&& after.tags.value is Some
            &&& after.ty.value is Some
            &&& after.version.value == Some(processor.version@)
            &&& after.dist.value is Some ==> after.release.value is Some
            &&& processor.project_id is Some ==> after.project.value == processor.project_id
            &&& processor.key_id is Some ==> after.key_id.value == Some(processor.key_id->0@)
        }),
{
}

/// What was reported of an event is not replaced by a default.
pub proof fn law_reported_attributes_are_kept(
    processor: StoreNormalizeProcessor,
    event: EventModel,
    clock: Clock,
)
    ensures
        ({
            let after = processor.normal_event(event, clock);
            &&& event.level.value is Some ==> after.level == event.level
            &&& event.logger.value is Some ==> after.logger == event.logger
            &&& event.timestamp.value is Some ==> after.timestamp == event.timestamp
            &&& event.extra.value is Some ==> after.extra == event.extra
            &&& event.errors.value is Some ==> after.errors == event.errors
            &&& event.release.value is Some ==> after.dist == event.dist
        }),
{
}

/// Normalizing an event leaves alone what it only reads, and what it does not know.
pub proof fn law_other_attributes_are_kept(
    processor: StoreNormalizeProcessor,
    event: EventModel,
    clock: Clock,
)
    ensures
        ({
            let after = processor.normal_event(event, clock);
            &&& after.culprit == event.culprit
            &&& after.platform == event.platform
            &&& after.release == event.release
            &&& after.request == event.request
            &&& after.contexts == event.contexts
            &&& after.debug_meta == event.debug_meta
            &&& after.client_sdk == event.client_sdk
            &&& after.breadcrumbs == event.breadcrumbs
            &&& after.csp == event.csp
            &&& after.hpkp == event.hpkp
            &&& after.expectct == event.expectct
            &&& after.expectstaple == event.expectstaple
            &&& after.other == event.other
        }),
{
}

/// What is missing stays missing, and nothing is noted about it.
pub proof fn law_missing_values_stay_missing(
    processor: StoreNormalizeProcessor,
    string: Ann<Seq<char>>,
    event: Ann<EventModel>,
    breadcrumb: Ann<BreadcrumbModel>,
    request: Ann<RequestModel>,
    user: Ann<UserModel>,
    exception: Ann<ExceptionModel>,
    frame: Ann<FrameModel>,
    state: ProcessingState,
    clock: Clock,
)
    ensures
        string.value is None ==> processor.string_of(string, state) == string,
        event.value is None ==> processor.event_of(event, state, clock) == event,
        breadcrumb.value is None ==> processor.breadcrumb_of(breadcrumb, state) == breadcrumb,
        request.value is None ==> processor.request_of(request, state) == request,
        user.value is None ==> processor.user_of(user, state) == user,
        exception.value is None ==> processor.exception_of(exception, state) == exception,
        frame.value is None ==> processor.frame_of(frame, state) == frame,
{
}

/// An SDK stays as it was reported, and one that was not reported stays missing: the
/// name of a client is never in two parts.
pub proof fn law_sdk_stays_as_reported(
    processor: StoreNormalizeProcessor,
    info: Ann<ClientSdkInfoModel>,
    state: ProcessingState,
)
    ensures
        processor.client_sdk_info_of(info, state) == info,
{
}

/// The address that a user has is kept by the normalization of the event.
pub proof fn law_user_address_is_kept(
    processor: StoreNormalizeProcessor,
    event: EventModel,
    clock: Clock,
)
    requires
        event.user.value is Some,
        event.user.value->0.ip_address.value is Some,
    ensures
        processor.normal_event(event, clock).user == event.user,
{
}

/// A user without an address gets the one that the request came from, and only where
/// there is none that of the client.
pub proof fn law_request_address_comes_first(
    processor: StoreNormalizeProcessor,
    event: EventModel,
    clock: Clock,
)
    requires
        event.user.value matches Some(user) ==> user.ip_address.value is None,
    ensures
        ({
            let after = processor.normal_event(event, clock).user;
            &&& remote_address(event) matches Some(address) ==> after.value is Some
                && after.value->0.ip_address == Ann::of(address)
            &&& remote_address(event) is None && processor.client_ip is Some && (
            processor.is_public() || runs_at_user(event.platform.value)) ==> after.value is Some
                && after.value->0.ip_address == Ann::of(processor.client_ip->0@)
        }),
{
}

/// The address of the client is not given to the user of an event that a server
/// reported with a secret key.
pub proof fn law_server_address_is_not_used(
    processor: StoreNormalizeProcessor,
    event: EventModel,
    clock: Clock,
)
    requires
        !processor.is_public(),
        !runs_at_user(event.platform.value),
        remote_address(event) is None,
    ensures
        processor.normal_event(event, clock).user == event.user,
{
}

/// A stack trace is neither lost nor doubled: it moves to the only exception, or it
/// stays with the event and every exception keeps its own.
pub proof fn law_stacktrace_is_moved(
    processor: StoreNormalizeProcessor,
    event: EventModel,
    clock: Clock,
)
    requires
        event.stacktrace.value is Some,
        listed_exceptions(event) is Some,
    ensures
        ({
            let after = processor.normal_event(event, clock);
            let before = listed_exceptions(event)->0;
            let list = listed_exceptions(after)->0;
            &&& listed_exceptions(after) is Some
            &&& list.len() == before.len()
            &&& if before.len() == 1 && before[0].value is Some {
                &&& after.stacktrace.value is None
                &&& list[0].value->0.stacktrace == non_raw_stacktrace(event.stacktrace)
            } else {
                &&& after.stacktrace == non_raw_stacktrace(event.stacktrace)
                &&& forall|i: int|
                    0 <= i < list.len() && (#[trigger] list[i]).value is Some
                        ==> list[i].value->0.stacktrace == before[i].value->0.stacktrace
            }
        }),
{
}

/// Where the address of the client is known, no request and no user that was
/// processed is left with an open one.
pub proof fn law_open_addresses_are_filled_in(
    processor: StoreNormalizeProcessor,
    request: Ann<RequestModel>,
    user: Ann<UserModel>,
    state: ProcessingState,
)
    requires
        processor.client_ip is Some,
        processor.client_ip->0@ != AUTO_ADDRESS@,
    ensures
        processor.request_of(request, state).value matches Some(after) ==> (
        after.env.value matches Some(env) ==> !leaves_address_open(env)),
        processor.user_of(user, state).value matches Some(after) ==> after.ip_address.value
            != Some(AUTO_ADDRESS@),
{
}

/// Whether normalizing an event once more would change nothing in its stack trace: it
/// has moved to the only exception, or its paths settle.
pub open spec fn stacktrace_settles(event: EventModel) -> bool {
    ||| trace_settles(event.stacktrace)
    ||| listed_exceptions(event) matches Some(list) && belongs_to_exception(list, event.stacktrace)
}

/// Normalizing an event a second time only renews the time at which it is received.
pub proof fn law_event_is_normalized_once(
    processor: StoreNormalizeProcessor,
    event: EventModel,
    first: Clock,
    second: Clock,
)
    requires
        stacktrace_settles(event),
    ensures
        processor.normal_event(processor.normal_event(event, first), second)
            == processor.normal_event(
            event,
            Clock { created: first.created, received: second.received },
        ),
{
    let once = processor.normal_event(event, first);
    let twice = processor.normal_event(once, second);
    if trace_settles(event.stacktrace) {
        law_stacktrace_is_completed_once(event.stacktrace);
    }
    lemma_filter_twice(event.tags.or(Seq::empty()).value->0);
    assert(os_hint(once) == os_hint(event));
    if let Some(list) = listed_exceptions(event) {
        let os = os_hint(event);
        let name = |exception: Ann<ExceptionModel>| named_exception(exception, os);
        let moved = with_stacktrace(list, non_raw_stacktrace(event.stacktrace));
        assert(listed_exceptions(once) == Some(moved.map_values(name)));
        assert(moved.map_values(name).len() == list.len());
        assert(stacktrace_of(once) == stacktrace_of(event));
        assert(with_stacktrace(moved.map_values(name), non_raw_stacktrace(once.stacktrace))
            == moved.map_values(name));
        assert forall|i: int| 0 <= i < moved.len() implies #[trigger] moved.map_values(
            name,
        ).map_values(name)[i] == moved.map_values(name)[i] by {
            if let Some(found) = moved[i].value {
                if let Some(mechanism) = found.mechanism.value {
                    law_mechanism_is_named_once(mechanism, os);
                }
            }
        }
        assert(moved.map_values(name).map_values(name) =~= moved.map_values(name));
    }
    assert(exceptions_of(once) == exceptions_of(event));
    assert(twice =~= processor.normal_event(
        event,
        Clock { created: first.created, received: second.received },
    ));
}

/// Processing a frame a second time changes nothing.
pub proof fn law_frame_is_processed_once(
    processor: StoreNormalizeProcessor,
    frame: Ann<FrameModel>,
    state: ProcessingState,
)
    ensures
        processor.frame_of(processor.frame_of(frame, state), state) == processor.frame_of(
            frame,
            state,
        ),
{
    if let Some(found) = frame.value {
        lemma_lines_are_filled_once(found.pre_lines);
        lemma_lines_are_filled_once(found.post_lines);
    }
}

proof fn lemma_lines_are_filled_once(lines: Ann<Seq<Ann<Seq<char>>>>)
    ensures
        filled_lines(filled_lines(lines)) == filled_lines(lines),
{
    if let Some(found) = lines.value {
        let fill = |line: Ann<Seq<char>>| line.or(Seq::<char>::empty());
        assert(found.map_values(fill).map_values(fill) =~= found.map_values(fill));
    }
}

/// Processing a breadcrumb, a request, a user or an SDK a second time changes nothing.
pub proof fn law_parts_are_processed_once(
    processor: StoreNormalizeProcessor,
    breadcrumb: Ann<BreadcrumbModel>,
    request: Ann<RequestModel>,
    user: Ann<UserModel>,
    info: Ann<ClientSdkInfoModel>,
    state: ProcessingState,
)
    ensures
        processor.breadcrumb_of(processor.breadcrumb_of(breadcrumb, state), state)
            == processor.breadcrumb_of(breadcrumb, state),
        processor.request_of(processor.request_of(request, state), state) == processor.request_of(
            request,
            state,
        ),
        processor.user_of(processor.user_of(user, state), state) == processor.user_of(user, state),
        processor.client_sdk_info_of(processor.client_sdk_info_of(info, state), state)
            == processor.client_sdk_info_of(info, state),
{
    if let (Some(found), Some(client_ip)) = (request.value, processor.client_ip) {
        if let Some(env) = found.env.value {
            if leaves_address_open(env) {
                let entry = Ann::of(ValueModel::Text(client_ip@));
                let filled = env.insert(REMOTE_ADDRESS@, entry);
                assert(filled.insert(REMOTE_ADDRESS@, entry) =~= filled);
            }
        }
    }
}

/// Whether all stack traces that an event ends up with settle. The one of the only
/// exception does not count where that of the event takes its place.
pub open spec fn event_settles(event: EventModel) -> bool {
    &&& trace_settles(event.stacktrace)
    &&& listed_exceptions(event) matches Some(list) ==> {
        ||| belongs_to_exception(list, event.stacktrace)
        ||| forall|i: int| 0 <= i < list.len() ==> exception_settles(#[trigger] list[i])
    }
}

/// Whether the paths in the stack trace of an exception settle.
pub open spec fn exception_settles(exception: Ann<ExceptionModel>) -> bool {
    match exception.value {
        Some(found) => trace_settles(found.stacktrace),
        None => true,
    }
}

/// Whether processing the frames of a stack trace leaves them as they are.
spec fn frames_rest(processor: StoreNormalizeProcessor, stacktrace: Ann<StacktraceModel>) -> bool {
    walked_stacktrace(processor, stacktrace) == stacktrace
}

/// Whether processing a stack trace that is not raw leaves it as it is.
spec fn trace_rests(processor: StoreNormalizeProcessor, stacktrace: Ann<StacktraceModel>) -> bool {
    &&& frames_rest(processor, stacktrace)
    &&& non_raw_stacktrace(stacktrace) == stacktrace
}

/// Whether processing an exception leaves all but its stack trace as it is.
spec fn message_rests(processor: StoreNormalizeProcessor, exception: Ann<ExceptionModel>) -> bool {
    match exception.value {
        Some(found) => {
            &&& frames_rest(processor, found.raw_stacktrace)
            &&& typed_value(found.ty, found.value, groups_in(found.value)) == (
                found.ty,
                found.value,
            )
            &&& found.ty.value is None && found.value.value is None ==> exception.meta.errors.len()
                > 0
        },
        None => true,
    }
}

/// Whether processing an exception leaves it as it is.
spec fn exception_rests(processor: StoreNormalizeProcessor, exception: Ann<ExceptionModel>) -> bool {
    &&& message_rests(processor, exception)
    &&& exception.value matches Some(found) ==> trace_rests(processor, found.stacktrace)
}

proof fn lemma_walked_frames_rest(
    processor: StoreNormalizeProcessor,
    stacktrace: Ann<StacktraceModel>,
)
    ensures
        frames_rest(processor, walked_stacktrace(processor, stacktrace)),
        trace_settles(stacktrace) ==> trace_settles(walked_stacktrace(processor, stacktrace)),
{
    if let Some(found) = stacktrace.value {
        if let Some(frames) = found.frames.value {
            let plain = ProcessingState::plain();
            let walk = |frame: Ann<FrameModel>| processor.frame_of(frame, plain);
            assert forall|i: int| 0 <= i < frames.len() implies #[trigger] frames.map_values(
                walk,
            ).map_values(walk)[i] == frames.map_values(walk)[i] by {
                law_frame_is_processed_once(processor, frames[i], plain);
            }
            assert(frames.map_values(walk).map_values(walk) =~= frames.map_values(walk));
            if trace_settles(stacktrace) {
                assert forall|i: int| 0 <= i < frames.len() implies paths_settle(
                    #[trigger] frames.map_values(walk)[i],
                ) by {
                    assert(paths_settle(frames[i]));
                }
            }
        }
    }
}

proof fn lemma_completed_frames_rest(
    processor: StoreNormalizeProcessor,
    stacktrace: Ann<StacktraceModel>,
)
    requires
        frames_rest(processor, stacktrace),
    ensures
        frames_rest(processor, non_raw_stacktrace(stacktrace)),
{
    if let Some(found) = stacktrace.value {
        if let Some(frames) = found.frames.value {
            let plain = ProcessingState::plain();
            let walk = |frame: Ann<FrameModel>| processor.frame_of(frame, plain);
            let complete = |frame: Ann<FrameModel>| non_raw_frame(frame);
            assert(frames.map_values(walk) == frames);
            assert forall|i: int| 0 <= i < frames.len() implies #[trigger] frames.map_values(
                complete,
            ).map_values(walk)[i] == frames.map_values(complete)[i] by {
                assert(frames.map_values(walk)[i] == processor.frame_of(frames[i], plain));
            }
            assert(frames.map_values(complete).map_values(walk) =~= frames.map_values(complete));
        }
    }
}

proof fn lemma_walked_exception_rests(
    processor: StoreNormalizeProcessor,
    exception: Ann<ExceptionModel>,
)
    ensures
        message_rests(
            processor,
            walked_exception(processor, exception, ProcessingState::plain()),
        ),
        exception_settles(exception) ==> exception_rests(
            processor,
            walked_exception(processor, exception, ProcessingState::plain()),
        ),
{
    if let Some(found) = exception.value {
        let walked = walked_stacktrace(processor, found.stacktrace);
        lemma_walked_frames_rest(processor, found.stacktrace);
        lemma_walked_frames_rest(processor, found.raw_stacktrace);
        lemma_completed_frames_rest(processor, walked);
        if exception_settles(exception) {
            law_stacktrace_is_completed_once(walked);
        }
    }
}

proof fn lemma_resting_exception(
    processor: StoreNormalizeProcessor,
    exception: Ann<ExceptionModel>,
)
    requires
        exception_rests(processor, exception),
    ensures
        walked_exception(processor, exception, ProcessingState::plain()) == exception,
{
    assert(walked_exception(processor, exception, ProcessingState::plain()) =~= exception);
}

/// Processing an exception a second time changes nothing.
pub proof fn law_exception_is_processed_once(
    processor: StoreNormalizeProcessor,
    exception: Ann<ExceptionModel>,
)
    requires
        exception_settles(exception),
    ensures
        ({
            let once = walked_exception(processor, exception, ProcessingState::plain());
            walked_exception(processor, once, ProcessingState::plain()) == once
        }),
{
    lemma_walked_exception_rests(processor, exception);
    lemma_resting_exception(
        processor,
        walked_exception(processor, exception, ProcessingState::plain()),
    );
}

/// The parts of an event that was processed are left as they are.
proof fn lemma_parts_of_processed_event(
    processor: StoreNormalizeProcessor,
    event: EventModel,
    clock: Clock,
)
    requires
        event_settles(event),
    ensures
        ({
            let once = processor.normal_event(walked_parts(processor, event), clock);
            walked_parts(processor, once) == once
        }),
{
    let plain = ProcessingState::plain();
    let parts = walked_parts(processor, event);
    let once = processor.normal_event(parts, clock);
    let again = walked_parts(processor, once);

    law_capped_text_fits(event.culprit, CapSize::Symbol);
    assert(again.culprit == once.culprit);

    law_parts_are_processed_once(
        processor,
        Ann::missing(),
        event.request,
        event.user,
        event.client_sdk,
        plain,
    );
    assert(again.request == once.request);
    assert(again.client_sdk == once.client_sdk);
    lemma_user_of_processed_event(processor, event, clock);
    assert(again.user == once.user);

    if let Some(list) = event.breadcrumbs.value {
        if let Some(values) = list.values.value {
            let walk = |breadcrumb: Ann<BreadcrumbModel>| processor.breadcrumb_of(breadcrumb, plain);
            assert(values.map_values(walk).map_values(walk) =~= values.map_values(walk));
        }
    }
    assert(again.breadcrumbs == once.breadcrumbs);

    lemma_walked_frames_rest(processor, event.stacktrace);
    lemma_completed_frames_rest(processor, parts.stacktrace);
    law_stacktrace_is_completed_once(parts.stacktrace);
    assert(again.stacktrace == once.stacktrace);

    if let Some(before) = listed_exceptions(event) {
        let walk = |exception: Ann<ExceptionModel>| walked_exception(processor, exception, plain);
        let list = before.map_values(walk);
        assert(listed_exceptions(parts) == Some(list));
        let done = listed_exceptions(once)->0;
        assert(done.len() == list.len());
        assert forall|i: int| 0 <= i < done.len() implies #[trigger] done.map_values(walk)[i]
            == done[i] by {
            lemma_walked_exception_rests(processor, before[i]);
            if !belongs_to_exception(before, event.stacktrace) {
                assert(exception_settles(before[i]));
            }
            assert(exception_rests(processor, done[i]));
            lemma_resting_exception(processor, done[i]);
        }
        assert(done.map_values(walk) =~= done);
    }
    assert(again.exceptions == once.exceptions);
    assert(again =~= once);
}

proof fn lemma_user_of_processed_event(
    processor: StoreNormalizeProcessor,
    event: EventModel,
    clock: Clock,
)
    ensures
        ({
            let once = processor.normal_event(walked_parts(processor, event), clock);
            processor.user_of(once.user, ProcessingState::plain()) == once.user
        }),
{
    let plain = ProcessingState::plain();
    let parts = walked_parts(processor, event);
    let once = processor.normal_event(parts, clock);
    if let Some(client_ip) = processor.client_ip {
        if client_ip@ != AUTO_ADDRESS@ {
            law_open_addresses_are_filled_in(processor, event.request, event.user, plain);
            assert(remote_address(parts) != Some(AUTO_ADDRESS@));
        }
    }
}

/// Processing an event a second time only renews the time at which it is received.
pub proof fn law_event_is_processed_once(
    processor: StoreNormalizeProcessor,
    event: Ann<EventModel>,
    first: Clock,
    second: Clock,
)
    requires
        event.value matches Some(found) ==> event_settles(found),
    ensures
        ({
            let plain = ProcessingState::plain();
            walked_event(
                processor,
                walked_event(processor, event, plain, first),
                plain,
                second,
            ) == walked_event(
                processor,
                event,
                plain,
                Clock { created: first.created, received: second.received },
            )
        }),
{
    if let Some(found) = event.value {
        let parts = walked_parts(processor, found);
        lemma_parts_of_processed_event(processor, found, first);
        lemma_walked_frames_rest(processor, found.stacktrace);
        law_event_is_normalized_once(processor, parts, first, second);
    }
}

} // verus!
