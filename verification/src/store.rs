//! Normalization of events before they are stored.

use crate::annotated::{Ann, Annotated, Object, Value, ValueModel};
use crate::mechanism::{named_mechanism, normalize_mechanism_meta, os_hint, OsHint};
use crate::outside::{
    captures, collect_pair, collect_single, parse_url_path, type_and_value, unicode_word, url_path,
    utc_now, TYPE_VALUE_PATTERN,
};
use crate::processor::{capped, Clock, ProcessingState, Processor};
use crate::protocol::{
    Breadcrumb, BreadcrumbModel, ClientSdkInfo, ClientSdkInfoModel, Event, EventModel, EventType,
    Exception, ExceptionModel, Frame, FrameModel, IpAddr, JsonLenientString, Level, Request,
    RequestModel, Stacktrace, StacktraceModel, Tag, TagModel, Tags, Timestamp, User, UserModel,
    Values, ValuesModel, AUTO_ADDRESS,
};
use crate::text::{
    begins_with, parts_at_most, same_text, split_at_most, starts_with, trim, trimmed,
};
use vstd::prelude::*;

verus! {

/// How a client authenticated itself.
pub struct StoreAuth {
    /// What the client calls itself.
    pub client: String,
    /// Whether the client used a public key.
    pub is_public: bool,
}

/// What a [`StoreAuth`] says.
#[verifier::ext_equal]
pub struct StoreAuthModel {
    pub client: Seq<char>,
    pub is_public: bool,
}

impl DeepView for StoreAuth {
    type V = StoreAuthModel;

    open spec fn deep_view(&self) -> StoreAuthModel {
        StoreAuthModel { client: self.client@, is_public: self.is_public }
    }
}

/// The normalization of events that one client submitted.
pub struct StoreNormalizeProcessor {
    pub project_id: Option<u64>,
    pub client_ip: Option<String>,
    pub auth: Option<StoreAuth>,
    pub key_id: Option<String>,
    pub version: String,
}

/// Into how many parts the name of a client is split at most.
pub const CLIENT_PARTS: usize = 1;

/// The SDK that the name of a client tells of: the two parts around a slash, or
/// else the two around a space, give its name and its version.
pub open spec fn client_as_sdk(client: Seq<char>) -> Option<ClientSdkInfoModel> {
    let by_slash = parts_at_most(client, CLIENT_PARTS as nat, '/');
    let by_space = parts_at_most(client, CLIENT_PARTS as nat, ' ');
    if by_slash.len() == 2 {
        Some(sdk_of_parts(by_slash))
    } else if by_space.len() == 2 {
        Some(sdk_of_parts(by_space))
    } else {
        None
    }
}

/// The SDK of that name and version.
pub open spec fn sdk_of_parts(parts: Seq<Seq<char>>) -> ClientSdkInfoModel {
    ClientSdkInfoModel {
        name: Ann::of(parts[0]),
        version: Ann::of(parts[1]),
        ..ClientSdkInfoModel::blank()
    }
}

/// Reads the SDK off the name that the client gave. As the name is left in a single
/// part, it never tells of one.
pub fn parse_client_as_sdk(auth: &StoreAuth) -> (res: Option<ClientSdkInfo>)
    ensures
        res.deep_view() == client_as_sdk(auth.deep_view().client),
        res is None,
{
    let by_slash = split_at_most(auth.client.as_str(), CLIENT_PARTS, '/');
    assert(by_slash.deep_view().len() == by_slash@.len());
    let found = match collect_pair(by_slash) {
        Some(pair) => Some(pair),
        None => {
            let by_space = split_at_most(auth.client.as_str(), CLIENT_PARTS, ' ');
            assert(by_space.deep_view().len() == by_space@.len());
            collect_pair(by_space)
        },
    };
    match found {
        Some((name, version)) => {
            let mut info = ClientSdkInfo::default();
            info.name = Annotated::new(name);
            info.version = Annotated::new(version);
            Some(info)
        },
        None => None,
    }
}

/// Whether a file name is a URL of which the path is worth reading.
pub open spec fn url_like(filename: Seq<char>) -> bool {
    ||| begins_with(filename, "file:"@)
    ||| begins_with(filename, "http:"@)
    ||| begins_with(filename, "https:"@)
    ||| begins_with(filename, "applewebdata:"@)
}

/// Whether a file name is a URL of which the path is worth reading.
pub fn is_url(filename: &str) -> (res: bool)
    ensures
        res == url_like(filename@),
{
    starts_with(filename, "file:") || starts_with(filename, "http:") || starts_with(
        filename,
        "https:",
    ) || starts_with(filename, "applewebdata:")
}

/// The file name for an absolute path, where `path` is what a URL parser found: the
/// path of the URL, unless that says nothing, or else the absolute path itself.
pub open spec fn filename_of(abs_path: Seq<char>, path: Option<Seq<char>>) -> Seq<char> {
    match path {
        Some(path) => if path.len() > 0 && path != "/"@ {
            path
        } else {
            abs_path
        },
        None => abs_path,
    }
}

/// Chooses the file name for an absolute path, given what a URL parser found in it.
pub fn choose_filename(abs_path: &str, path: Option<String>) -> (res: String)
    ensures
        res@ == filename_of(abs_path@, path.deep_view()),
{
    match path {
        Some(path) => if !path.as_str().is_empty() && !same_text(path.as_str(), "/") {
            path
        } else {
            abs_path.to_owned()
        },
        None => abs_path.to_owned(),
    }
}

/// The absolute path of a frame: the file name stands in for one that is missing.
pub open spec fn abs_path_of(frame: FrameModel) -> Ann<Seq<char>> {
    if frame.abs_path.value is None {
        frame.filename
    } else {
        frame.abs_path
    }
}

/// Whether the file name of a frame is to be derived from its absolute path: it is
/// missing, or it was taken for the absolute path.
pub open spec fn lacks_filename(frame: FrameModel) -> bool {
    frame.abs_path.value is None || frame.filename.value is None
}

/// The URL in which to look for the file name of a frame.
pub open spec fn url_in(frame: FrameModel) -> Option<Seq<char>> {
    match abs_path_of(frame).value {
        Some(found) => if lacks_filename(frame) && url_like(found) {
            Some(found)
        } else {
            None
        },
        None => None,
    }
}

/// A frame with its two paths completed, where `path` is what a URL parser found in
/// its URL: a frame without an absolute path takes its file name for one, and then
/// a frame without a file name gets the one for its absolute path.
pub open spec fn completed_frame(frame: FrameModel, path: Option<Seq<char>>) -> FrameModel {
    FrameModel {
        abs_path: abs_path_of(frame),
        filename: if !lacks_filename(frame) {
            frame.filename
        } else {
            match abs_path_of(frame).value {
                Some(found) => Ann::of(
                    filename_of(
                        found,
                        if url_like(found) {
                            path
                        } else {
                            None
                        },
                    ),
                ),
                None => Ann::missing(),
            }
        },
        ..frame
    }
}

/// Completes the two paths of a frame, given what a URL parser found in its URL.
pub fn complete_frame(frame: Frame, path: Option<String>) -> (res: Frame)
    ensures
        res.deep_view() == completed_frame(frame.deep_view(), path.deep_view()),
{
    let mut frame = frame;
    if frame.abs_path.0.is_none() {
        frame.abs_path = frame.filename;
        frame.filename = Annotated::empty();
    }
    if frame.filename.0.is_none() {
        if let Some(abs_path) = &frame.abs_path.0 {
            let path = if is_url(abs_path.as_str()) {
                path
            } else {
                None
            };
            let filename: String = choose_filename(abs_path.as_str(), path);
            frame.filename = Annotated::new(filename);
        }
    }
    frame
}

/// Looks for the URL from which the file name of a frame is to be derived.
fn find_url(frame: &Frame) -> (res: Option<&str>)
    ensures
        match res {
            Some(url) => url_in(frame.deep_view()) == Some(url@),
            None => url_in(frame.deep_view()) is None,
        },
{
    let abs_path = match &frame.abs_path.0 {
        Some(abs_path) => if frame.filename.0.is_some() {
            return None;
        } else {
            abs_path
        },
        None => match &frame.filename.0 {
            Some(filename) => filename,
            None => {
                return None;
            },
        },
    };
    if is_url(abs_path.as_str()) {
        Some(abs_path.as_str())
    } else {
        None
    }
}

/// A frame with its two paths completed.
pub open spec fn non_raw_frame(frame: Ann<FrameModel>) -> Ann<FrameModel> {
    match frame.value {
        Some(found) => frame.with(
            completed_frame(
                found,
                match url_in(found) {
                    Some(url) => url_path(url),
                    None => None,
                },
            ),
        ),
        None => frame,
    }
}

/// Completes the two paths of a frame that is not raw.
pub fn process_non_raw_frame(frame: Annotated<Frame>) -> (res: Annotated<Frame>)
    ensures
        res.deep_view() == non_raw_frame(frame.deep_view()),
{
    let Annotated(value, meta) = frame;
    let value = match value {
        Some(frame) => {
            let path = match find_url(&frame) {
                Some(url) => parse_url_path(url),
                None => None,
            };
            Some(complete_frame(frame, path))
        },
        None => None,
    };
    Annotated(value, meta)
}

/// A stack trace with the paths of its frames completed.
pub open spec fn non_raw_stacktrace(stacktrace: Ann<StacktraceModel>) -> Ann<StacktraceModel> {
    match stacktrace.value {
        Some(found) => stacktrace.with(
            StacktraceModel {
                frames: match found.frames.value {
                    Some(frames) => found.frames.with(
                        frames.map_values(|frame: Ann<FrameModel>| non_raw_frame(frame)),
                    ),
                    None => found.frames,
                },
                ..found
            },
        ),
        None => stacktrace,
    }
}

/// Completes the paths of the frames of a stack trace. This is only for stack traces
/// that are not raw.
pub fn process_non_raw_stacktrace(stacktrace: Annotated<Stacktrace>) -> (res: Annotated<Stacktrace>)
    ensures
        res.deep_view() == non_raw_stacktrace(stacktrace.deep_view()),
{
    let Annotated(value, meta) = stacktrace;
    let value = match value {
        Some(stacktrace) => {
            let Stacktrace { frames, other } = stacktrace;
            let Annotated(frames, frames_meta) = frames;
            let frames = match frames {
                Some(frames) => {
                    let mut done: Vec<Annotated<Frame>> = Vec::new();
                    for frame in iter: frames
                        invariant
                            done@.len() == iter.index(),
                            forall|i: int|
                                0 <= i < iter.index() ==> #[trigger] done@[i].deep_view()
                                    == non_raw_frame(iter.seq()[i].deep_view()),
                    {
                        done.push(process_non_raw_frame(frame));
                    }
                    assert(done.deep_view() =~= frames.deep_view().map_values(
                        |frame: Ann<FrameModel>| non_raw_frame(frame),
                    ));
                    Some(done)
                },
                None => None,
            };
            Some(Stacktrace { frames: Annotated(frames, frames_meta), other })
        },
        None => None,
    };
    Annotated(value, meta)
}

/// The type and the message of an exception, where `groups` are the two parts into
/// which the message can be taken apart: they replace a message without a type.
pub open spec fn typed_value(
    ty: Ann<Seq<char>>,
    value: Ann<Seq<char>>,
    groups: Option<(Seq<char>, Seq<char>)>,
) -> (Ann<Seq<char>>, Ann<Seq<char>>) {
    match (ty.value, value.value, groups) {
        (None, Some(_), Some((first, second))) => (Ann::of(first), Ann::of(trimmed(second))),
        _ => (ty, value),
    }
}

/// The parts into which the message of an exception can be taken apart.
pub open spec fn groups_in(value: Ann<Seq<char>>) -> Option<(Seq<char>, Seq<char>)> {
    match value.value {
        Some(text) => type_and_value(text, |c: char| unicode_word(c)),
        None => None,
    }
}

/// Replaces a message without a type by the two parts into which it was taken apart.
pub fn split_type_and_value(
    ty: Annotated<String>,
    value: Annotated<String>,
    groups: Option<(String, String)>,
) -> (res: (Annotated<String>, Annotated<String>))
    ensures
        res.deep_view() == typed_value(ty.deep_view(), value.deep_view(), groups.deep_view()),
{
    if ty.0.is_none() && value.0.is_some() {
        if let Some((first, second)) = groups {
            return (Annotated::new(first), Annotated::new(trim(second.as_str()).to_owned()));
        }
    }
    (ty, value)
}

/// Reads the type of an exception off its message where it has none.
pub fn parse_type_and_value(ty: Annotated<String>, value: Annotated<String>) -> (res: (
    Annotated<String>,
    Annotated<String>,
))
    ensures
        res.deep_view() == typed_value(
            ty.deep_view(),
            value.deep_view(),
            groups_in(value.deep_view()),
        ),
{
    let groups = match (&ty.0, &value.0) {
        (None, Some(text)) => {
            let found = captures(TYPE_VALUE_PATTERN, text.as_str());
            let ghost listed = found.deep_view();
            assert(listed.len() == found@.len());
            assert(found@.len() == 1 ==> listed[0] == found@[0].deep_view());
            match collect_single(found) {
                Some((groups,)) => Some(groups),
                None => None,
            }
        },
        _ => None,
    };
    assert(ty.0 is None ==> groups.deep_view() == groups_in(value.deep_view()));
    split_type_and_value(ty, value, groups)
}

/// A text without a value where it is the question mark of an unknown name.
pub open spec fn known_name(name: Ann<Seq<char>>) -> Ann<Seq<char>> {
    if name.value == Some("?"@) {
        name.cleared()
    } else {
        name
    }
}

fn drop_unknown(name: Annotated<String>) -> (res: Annotated<String>)
    ensures
        res.deep_view() == known_name(name.deep_view()),
{
    let unknown = match &name.0 {
        Some(text) => same_text(text.as_str(), "?"),
        None => false,
    };
    if unknown {
        Annotated(None, name.1)
    } else {
        name
    }
}

/// Source lines, each present.
pub open spec fn filled_lines(lines: Ann<Seq<Ann<Seq<char>>>>) -> Ann<Seq<Ann<Seq<char>>>> {
    match lines.value {
        Some(found) => lines.with(
            found.map_values(|line: Ann<Seq<char>>| line.or(Seq::<char>::empty())),
        ),
        None => lines,
    }
}

fn fill_lines(lines: Annotated<Vec<Annotated<String>>>) -> (res: Annotated<Vec<Annotated<String>>>)
    ensures
        res.deep_view() == filled_lines(lines.deep_view()),
{
    let Annotated(value, meta) = lines;
    let value = match value {
        Some(lines) => {
            let mut done: Vec<Annotated<String>> = Vec::new();
            for line in iter: lines
                invariant
                    done@.len() == iter.index(),
                    forall|i: int|
                        0 <= i < iter.index() ==> #[trigger] done@[i].deep_view()
                            == iter.seq()[i].deep_view().or(Seq::<char>::empty()),
            {
                done.push(line.or_value(String::new()));
            }
            assert(done.deep_view() =~= lines.deep_view().map_values(
                |line: Ann<Seq<char>>| line.or(Seq::<char>::empty()),
            ));
            Some(done)
        },
        None => None,
    };
    Annotated(value, meta)
}

/// Whether a tag gives the environment.
pub open spec fn is_environment_tag(tag: TagModel) -> bool {
    match tag.value {
        Some((key, value)) => key.value == Some("environment"@) && value.value is Some,
        None => false,
    }
}

/// The value of a tag.
pub open spec fn tag_value(tag: TagModel) -> Option<Seq<char>> {
    match tag.value {
        Some((_, value)) => value.value,
        None => None,
    }
}

/// The environment that the last such tag gives.
pub open spec fn tagged_environment(tags: Seq<TagModel>) -> Option<Seq<char>>
    decreases tags.len(),
{
    if tags.len() == 0 {
        None
    } else if is_environment_tag(tags.last()) {
        tag_value(tags.last())
    } else {
        tagged_environment(tags.drop_last())
    }
}

/// The tags that do not give the environment, in order.
pub open spec fn other_tags(tags: Seq<TagModel>) -> Seq<TagModel> {
    tags.filter(|tag: TagModel| !is_environment_tag(tag))
}

/// The environment of an event: its own, or else the one that a tag gives.
pub open spec fn environment_of(event: EventModel) -> Ann<Seq<char>> {
    match (event.environment.value, tagged_environment(event.tags.or(Seq::empty()).value->0)) {
        (None, Some(found)) => event.environment.with(found),
        _ => event.environment,
    }
}

/// The tags of an event: without those that could give the environment, where it
/// had none of its own.
pub open spec fn tags_of(event: EventModel) -> Ann<Seq<TagModel>> {
    let tags = event.tags.or(Seq::empty());
    if event.environment.value is None {
        tags.with(other_tags(tags.value->0))
    } else {
        tags
    }
}

/// The environment that a tag gives.
fn environment_in(tag: &Tag) -> (res: Option<String>)
    ensures
        match res {
            Some(value) => is_environment_tag(tag.deep_view()) && tag_value(tag.deep_view())
                == Some(value@),
            None => !is_environment_tag(tag.deep_view()),
        },
{
    match &tag.0 {
        Some((key, value)) => match (&key.0, &value.0) {
            (Some(key), Some(value)) => if same_text(key.as_str(), "environment") {
                Some(value.clone())
            } else {
                None
            },
            _ => None,
        },
        None => None,
    }
}

/// Takes the tags that give the environment out of a list, and keeps what the last
/// of them gives.
fn split_tags(tags: Vec<Tag>) -> (res: (Option<String>, Vec<Tag>))
    ensures
        res.0.deep_view() == tagged_environment(tags.deep_view()),
        res.1.deep_view() == other_tags(tags.deep_view()),
{
    let mut environment: Option<String> = None;
    let mut others: Vec<Tag> = Vec::new();
    let ghost all = tags.deep_view();
    assert(all.take(0) =~= Seq::empty());
    proof {
        reveal(Seq::filter);
    }
    assert(others.deep_view() =~= other_tags(all.take(0)));
    for tag in iter: tags
        invariant
            all == tags.deep_view(),
            iter.seq() == tags@,
            environment.deep_view() == tagged_environment(all.take(iter.index() as int)),
            others.deep_view() == other_tags(all.take(iter.index() as int)),
    {
        let ghost seen = all.take(iter.index() as int);
        let ghost next = all.take(iter.index() + 1);
        proof {
            reveal(Seq::filter);
            assert(next.drop_last() =~= seen);
            assert(next.last() == tag.deep_view());
        }
        match environment_in(&tag) {
            Some(found) => {
                environment = Some(found);
            },
            None => {
                let ghost before = others.deep_view();
                others.push(tag);
                assert(others.deep_view() =~= before.push(tag.deep_view()));
            },
        }
    }
    assert(all.take(all.len() as int) =~= all);
    (environment, others)
}

/// Moves the environment out of the tags where it is given there.
fn lift_environment(environment: Annotated<String>, tags: Annotated<Tags>) -> (res: (
    Annotated<String>,
    Annotated<Tags>,
))
    ensures
        forall|event: EventModel|
            event.environment == environment.deep_view() && event.tags == tags.deep_view() ==> (
            res.0.deep_view() == #[trigger] environment_of(event) && res.1.deep_view() == tags_of(
                event,
            )),
{
    let none: Vec<Tag> = Vec::new();
    assert(none.deep_view() =~= Seq::empty());
    let Annotated(tags, tags_meta) = tags;
    let Tags(tags) = match tags {
        Some(tags) => tags,
        None => Tags(none),
    };
    let Annotated(environment, environment_meta) = environment;
    match environment {
        Some(environment) => (
            Annotated(Some(environment), environment_meta),
            Annotated(Some(Tags(tags)), tags_meta),
        ),
        None => {
            let (found, others) = split_tags(tags);
            (Annotated(found, environment_meta), Annotated(Some(Tags(others)), tags_meta))
        },
    }
}

/// The exceptions of an event.
pub open spec fn listed_exceptions(event: EventModel) -> Option<Seq<Ann<ExceptionModel>>> {
    match event.exceptions.value {
        Some(exceptions) => exceptions.values.value,
        None => None,
    }
}

/// What kind of event this is. Clients do not say so: it shows in the attributes
/// that are present.
pub open spec fn event_type_of(event: EventModel) -> EventType {
    let has_exceptions = match listed_exceptions(event) {
        Some(list) => list.len() > 0,
        None => false,
    };
    if has_exceptions {
        EventType::Error
    } else if event.csp.value is Some {
        EventType::Csp
    } else if event.hpkp.value is Some {
        EventType::Hpkp
    } else if event.expectct.value is Some {
        EventType::ExpectCT
    } else if event.expectstaple.value is Some {
        EventType::ExpectStaple
    } else {
        EventType::Default
    }
}

/// Infers what kind of event this is.
fn infer_event_type(event: &Event) -> (res: EventType)
    ensures
        res == event_type_of(event.deep_view()),
{
    let has_exceptions = match &event.exceptions.0 {
        Some(exceptions) => match &exceptions.values.0 {
            Some(list) => list.len() > 0,
            None => false,
        },
        None => false,
    };
    if has_exceptions {
        EventType::Error
    } else if event.csp.0.is_some() {
        EventType::Csp
    } else if event.hpkp.0.is_some() {
        EventType::Hpkp
    } else if event.expectct.0.is_some() {
        EventType::ExpectCT
    } else if event.expectstaple.0.is_some() {
        EventType::ExpectStaple
    } else {
        EventType::Default
    }
}

/// Whether a stack trace beside these exceptions belongs to the only one of them.
pub open spec fn belongs_to_exception(
    list: Seq<Ann<ExceptionModel>>,
    stacktrace: Ann<StacktraceModel>,
) -> bool {
    list.len() == 1 && list[0].value is Some && stacktrace.value is Some
}

/// These exceptions, where the only one has taken over the stack trace beside them.
pub open spec fn with_stacktrace(
    list: Seq<Ann<ExceptionModel>>,
    stacktrace: Ann<StacktraceModel>,
) -> Seq<Ann<ExceptionModel>> {
    if belongs_to_exception(list, stacktrace) {
        seq![list[0].with(ExceptionModel { stacktrace, ..list[0].value->0 })]
    } else {
        list
    }
}

/// An exception with the names in its mechanism filled in.
pub open spec fn named_exception(exception: Ann<ExceptionModel>, os: Option<OsHint>) -> Ann<
    ExceptionModel,
> {
    match exception.value {
        Some(found) => exception.with(
            ExceptionModel {
                mechanism: match found.mechanism.value {
                    Some(mechanism) => found.mechanism.with(named_mechanism(mechanism, os)),
                    None => found.mechanism,
                },
                ..found
            },
        ),
        None => exception,
    }
}

/// The exceptions of an event: the only one takes over the stack trace of the
/// event, and the names in their mechanisms are filled in.
pub open spec fn exceptions_of(event: EventModel) -> Ann<ValuesModel<ExceptionModel>> {
    match (event.exceptions.value, listed_exceptions(event)) {
        (Some(exceptions), Some(list)) => event.exceptions.with(
            ValuesModel {
                values: exceptions.values.with(
                    with_stacktrace(list, non_raw_stacktrace(event.stacktrace)).map_values(
                        |exception: Ann<ExceptionModel>|
                            named_exception(exception, os_hint(event)),
                    ),
                ),
                ..exceptions
            },
        ),
        _ => event.exceptions,
    }
}

/// The stack trace that is left with an event.
pub open spec fn stacktrace_of(event: EventModel) -> Ann<StacktraceModel> {
    let stacktrace = non_raw_stacktrace(event.stacktrace);
    match listed_exceptions(event) {
        Some(list) => if belongs_to_exception(list, stacktrace) {
            Ann::missing()
        } else {
            stacktrace
        },
        None => stacktrace,
    }
}

/// Moves a stack trace to the only exception of a list.
fn move_stacktrace(list: Vec<Annotated<Exception>>, stacktrace: Annotated<Stacktrace>) -> (res: (
    Vec<Annotated<Exception>>,
    Annotated<Stacktrace>,
))
    ensures
        res.0.deep_view() == with_stacktrace(list.deep_view(), stacktrace.deep_view()),
        res.1.deep_view() == (if belongs_to_exception(list.deep_view(), stacktrace.deep_view()) {
            Ann::missing()
        } else {
            stacktrace.deep_view()
        }),
{
    if list.len() != 1 || stacktrace.0.is_none() {
        return (list, stacktrace);
    }
    let mut list = list;
    let ghost all = list.deep_view();
    let Annotated(value, meta) = list.pop().unwrap();
    assert(list.deep_view() =~= Seq::empty());
    match value {
        Some(exception) => {
            let mut exception = exception;
            exception.stacktrace = stacktrace;
            list.push(Annotated(Some(exception), meta));
            assert(list.deep_view() =~= with_stacktrace(all, stacktrace.deep_view()));
            (list, Annotated::empty())
        },
        None => {
            list.push(Annotated(None, meta));
            assert(list.deep_view() =~= all);
            (list, stacktrace)
        },
    }
}

/// Fills in the names in the mechanism of an exception.
fn name_exception(exception: Annotated<Exception>, os: Option<OsHint>) -> (res: Annotated<
    Exception,
>)
    ensures
        res.deep_view() == named_exception(exception.deep_view(), os),
{
    let Annotated(value, meta) = exception;
    let value = match value {
        Some(exception) => {
            let mut exception = exception;
            let Annotated(mechanism, mechanism_meta) = exception.mechanism;
            let mechanism = match mechanism {
                Some(mechanism) => Some(normalize_mechanism_meta(mechanism, os)),
                None => None,
            };
            exception.mechanism = Annotated(mechanism, mechanism_meta);
            Some(exception)
        },
        None => None,
    };
    Annotated(value, meta)
}

/// Moves the stack trace of an event to its only exception, and fills in the names
/// in the mechanisms of its exceptions.
fn normalize_exceptions(
    exceptions: Annotated<Values<Exception>>,
    stacktrace: Annotated<Stacktrace>,
    os: Option<OsHint>,
) -> (res: (Annotated<Values<Exception>>, Annotated<Stacktrace>))
    ensures
        forall|event: EventModel|
            event.exceptions == exceptions.deep_view() && non_raw_stacktrace(event.stacktrace)
                == stacktrace.deep_view() && os_hint(event) == os ==> (res.0.deep_view()
                == #[trigger] exceptions_of(event) && res.1.deep_view() == stacktrace_of(event)),
{
    let Annotated(value, meta) = exceptions;
    match value {
        Some(exceptions) => {
            let Values { values, other } = exceptions;
            let Annotated(list, list_meta) = values;
            match list {
                Some(list) => {
                    let ghost all = list.deep_view();
                    let (list, left) = move_stacktrace(list, stacktrace);
                    let mut done: Vec<Annotated<Exception>> = Vec::new();
                    for exception in iter: list
                        invariant
                            done@.len() == iter.index(),
                            forall|i: int|
                                0 <= i < iter.index() ==> #[trigger] done@[i].deep_view()
                                    == named_exception(iter.seq()[i].deep_view(), os),
                    {
                        done.push(name_exception(exception, os));
                    }
                    assert(done.deep_view() =~= with_stacktrace(
                        all,
                        stacktrace.deep_view(),
                    ).map_values(|exception: Ann<ExceptionModel>| named_exception(exception, os)));
                    let values = Annotated(Some(done), list_meta);
                    (Annotated(Some(Values { values, other }), meta), left)
                },
                None => {
                    let values = Annotated(None, list_meta);
                    (Annotated(Some(Values { values, other }), meta), stacktrace)
                },
            }
        },
        None => (Annotated(None, meta), stacktrace),
    }
}

/// Under which name a request gives the address that it came from.
pub const REMOTE_ADDRESS: &'static str = "REMOTE_ADDR";

/// The address that the request of an event came from.
pub open spec fn remote_address(event: EventModel) -> Option<Seq<char>> {
    match event.request.value {
        Some(request) => match request.env.value {
            Some(env) => if env.contains_key(REMOTE_ADDRESS@) {
                match env[REMOTE_ADDRESS@].value {
                    Some(ValueModel::Text(address)) => Some(address),
                    _ => None,
                }
            } else {
                None
            },
            None => None,
        },
        None => None,
    }
}

/// Reads the address that the request of an event came from.
fn find_remote_address(event: &Event) -> (res: Option<String>)
    ensures
        res.deep_view() == remote_address(event.deep_view()),
{
    match &event.request.0 {
        Some(request) => match &request.env.0 {
            Some(env) => match env.get(REMOTE_ADDRESS) {
                Some(entry) => match &entry.0 {
                    Some(Value::String(address)) => Some(address.clone()),
                    _ => None,
                },
                None => None,
            },
            None => None,
        },
        None => None,
    }
}

/// Whether events of that platform are sent by the machine of the user.
pub open spec fn runs_at_user(platform: Option<Seq<char>>) -> bool {
    ||| platform == Some("javascript"@)
    ||| platform == Some("cocoa"@)
    ||| platform == Some("objc"@)
}

fn is_run_at_user(platform: &Option<String>) -> (res: bool)
    ensures
        res == runs_at_user(platform.deep_view()),
{
    match platform {
        Some(name) => same_text(name.as_str(), "javascript") || same_text(name.as_str(), "cocoa")
            || same_text(name.as_str(), "objc"),
        None => false,
    }
}

/// A user with that address, unless there is one already.
pub open spec fn with_address(user: Ann<UserModel>, address: Seq<char>) -> Ann<UserModel> {
    let found = user.or(UserModel::blank()).value->0;
    user.with(
        UserModel {
            ip_address: if found.ip_address.value is None {
                Ann::of(address)
            } else {
                found.ip_address
            },
            ..found
        },
    )
}

/// Gives a user an address, unless there is one already.
fn set_address(user: Annotated<User>, address: String) -> (res: Annotated<User>)
    ensures
        res.deep_view() == with_address(user.deep_view(), address@),
{
    let Annotated(value, meta) = user;
    let mut found = match value {
        Some(found) => found,
        None => User::default(),
    };
    if found.ip_address.0.is_none() {
        found.ip_address = Annotated::new(IpAddr(address));
    }
    Annotated(Some(found), meta)
}

impl StoreNormalizeProcessor {
    /// Whether the client used a public key.
    pub open spec fn is_public(&self) -> bool {
        match self.auth {
            Some(auth) => auth.is_public,
            None => false,
        }
    }

    /// The address to give the user of an event: the one that its request came from,
    /// or else that of the client, where the client is the machine of the user.
    pub open spec fn user_address(&self, event: EventModel) -> Option<Seq<char>> {
        match remote_address(event) {
            Some(address) => Some(address),
            None => if self.is_public() || runs_at_user(event.platform.value) {
                self.client_ip.deep_view()
            } else {
                None
            },
        }
    }

    /// The user of an event.
    pub open spec fn user_in(&self, event: EventModel) -> Ann<UserModel> {
        match self.user_address(event) {
            Some(address) => with_address(event.user, address),
            None => event.user,
        }
    }

    /// A normalized event.
    pub open spec fn normal_event(&self, event: EventModel, clock: Clock) -> EventModel {
        EventModel {
            project: match self.project_id {
                Some(project_id) => event.project.with(project_id),
                None => event.project,
            },
            key_id: match self.key_id.deep_view() {
                Some(key_id) => event.key_id.with(key_id),
                None => event.key_id,
            },
            version: Ann::of(self.version@),
            ty: Ann::of(event_type_of(event)),
            level: event.level.or(Level::Error),
            logger: event.logger.or(Seq::empty()),
            timestamp: event.timestamp.or(clock.created),
            received: event.received.with(clock.received),
            dist: if event.release.value is None {
                event.dist.cleared()
            } else {
                event.dist
            },
            environment: environment_of(event),
            tags: tags_of(event),
            extra: event.extra.or(Map::empty()),
            errors: event.errors.or(Seq::empty()),
            user: self.user_in(event),
            exceptions: exceptions_of(event),
            stacktrace: stacktrace_of(event),
            ..event
        }
    }

    /// Finds the address to give the user of an event.
    fn find_user_address(&self, event: &Event) -> (res: Option<String>)
        ensures
            res.deep_view() == self.user_address(event.deep_view()),
    {
        match find_remote_address(event) {
            Some(address) => Some(address),
            None => match &self.client_ip {
                Some(client_ip) => {
                    let is_public = match &self.auth {
                        Some(auth) => auth.is_public,
                        None => false,
                    };
                    if is_public || is_run_at_user(&event.platform.0) {
                        Some(client_ip.clone())
                    } else {
                        None
                    }
                },
                None => None,
            },
        }
    }

    /// Normalizes an event, given what the clock showed.
    pub fn normalize_event(&self, event: Event, created: Timestamp, received: Timestamp) -> (res:
        Event)
        ensures
            res.deep_view() == self.normal_event(event.deep_view(), Clock { created, received }),
    {
        let ty = infer_event_type(&event);
        let os = OsHint::from_event(&event);
        let address = self.find_user_address(&event);
        let project = match self.project_id {
            Some(project_id) => Annotated(Some(project_id), event.project.1),
            None => event.project,
        };
        let key_id = match &self.key_id {
            Some(key_id) => Annotated(Some(key_id.clone()), event.key_id.1),
            None => event.key_id,
        };
        let dist = if event.release.0.is_none() {
            Annotated(None, event.dist.1)
        } else {
            event.dist
        };
        let (environment, tags) = lift_environment(event.environment, event.tags);
        let user = match address {
            Some(address) => set_address(event.user, address),
            None => event.user,
        };
        let stacktrace = process_non_raw_stacktrace(event.stacktrace);
        let (exceptions, stacktrace) = normalize_exceptions(event.exceptions, stacktrace, os);
        let no_errors: Vec<Annotated<Value>> = Vec::new();
        assert(no_errors.deep_view() =~= Seq::empty());
        Event {
            project,
            key_id,
            version: Annotated::new(self.version.clone()),
            ty: Annotated::new(ty),
            level: event.level.or_value(Level::Error),
            logger: event.logger.or_value(String::new()),
            timestamp: event.timestamp.or_value(created),
            received: Annotated(Some(received), event.received.1),
            dist,
            environment,
            tags,
            extra: event.extra.or_value(Object::new()),
            errors: event.errors.or_value(no_errors),
            user,
            exceptions,
            stacktrace,
            culprit: event.culprit,
            platform: event.platform,
            release: event.release,
            request: event.request,
            contexts: event.contexts,
            debug_meta: event.debug_meta,
            client_sdk: event.client_sdk,
            breadcrumbs: event.breadcrumbs,
            csp: event.csp,
            hpkp: event.hpkp,
            expectct: event.expectct,
            expectstaple: event.expectstaple,
            other: event.other,
        }
    }
}

/// Whether the variables of a request leave the address that it came from open.
pub open spec fn leaves_address_open(env: Map<Seq<char>, Ann<ValueModel>>) -> bool {
    env.contains_key(REMOTE_ADDRESS@) && env[REMOTE_ADDRESS@].value == Some(
        ValueModel::Text(AUTO_ADDRESS@),
    )
}

fn is_address_open(env: &Object<Value>) -> (res: bool)
    ensures
        res == leaves_address_open(env.deep_view()),
{
    match env.get(REMOTE_ADDRESS) {
        Some(entry) => match &entry.0 {
            Some(Value::String(address)) => same_text(address.as_str(), AUTO_ADDRESS),
            _ => false,
        },
        None => false,
    }
}

/// The message of an exception as plain text.
fn plain_value(value: Annotated<JsonLenientString>) -> (res: Annotated<String>)
    ensures
        res.deep_view() == value.deep_view(),
{
    let Annotated(value, meta) = value;
    match value {
        Some(JsonLenientString(text)) => Annotated(Some(text), meta),
        None => Annotated(None, meta),
    }
}

/// A plain text as the message of an exception.
fn lenient_value(value: Annotated<String>) -> (res: Annotated<JsonLenientString>)
    ensures
        res.deep_view() == value.deep_view(),
{
    let Annotated(value, meta) = value;
    match value {
        Some(text) => Annotated(Some(JsonLenientString(text)), meta),
        None => Annotated(None, meta),
    }
}

/// What is wrong with an exception that has neither a type nor a message.
pub const EXCEPTION_INVALID: &'static str = "type or value required";

/// An exception with the paths in its stack trace completed, and with its type read
/// off its message where it has none.
pub open spec fn normal_exception(exception: ExceptionModel) -> ExceptionModel {
    let (ty, value) = typed_value(exception.ty, exception.value, groups_in(exception.value));
    ExceptionModel {
        stacktrace: non_raw_stacktrace(exception.stacktrace),
        ty,
        value,
        ..exception
    }
}

/// A frame without names that are not known, and with everything present that is
/// expected to be.
pub open spec fn normal_frame(frame: FrameModel) -> FrameModel {
    FrameModel {
        in_app: frame.in_app.or(false),
        function: known_name(frame.function),
        symbol: known_name(frame.symbol),
        pre_lines: filled_lines(frame.pre_lines),
        post_lines: filled_lines(frame.post_lines),
        ..frame
    }
}

impl Processor for StoreNormalizeProcessor {
    /// A text is cut where its length is limited.
    open spec fn string_of(&self, value: Ann<Seq<char>>, state: ProcessingState) -> Ann<Seq<char>> {
        match state.attrs.cap_size {
            Some(cap) => capped(value, cap),
            None => value,
        }
    }

    open spec fn event_of(&self, value: Ann<EventModel>, state: ProcessingState, clock: Clock) -> Ann<
        EventModel,
    > {
        match value.value {
            Some(event) => value.with(self.normal_event(event, clock)),
            None => value,
        }
    }

    /// A breadcrumb gets the default type and an informational level.
    open spec fn breadcrumb_of(&self, value: Ann<BreadcrumbModel>, state: ProcessingState) -> Ann<
        BreadcrumbModel,
    > {
        match value.value {
            Some(breadcrumb) => value.with(
                BreadcrumbModel {
                    ty: breadcrumb.ty.or("default"@),
                    level: breadcrumb.level.or(Level::Info),
                    ..breadcrumb
                },
            ),
            None => value,
        }
    }

    /// A request that leaves its address open gets that of the client.
    open spec fn request_of(&self, value: Ann<RequestModel>, state: ProcessingState) -> Ann<
        RequestModel,
    > {
        match (value.value, self.client_ip.deep_view()) {
            (Some(request), Some(client_ip)) => match request.env.value {
                Some(env) => if leaves_address_open(env) {
                    value.with(
                        RequestModel {
                            env: request.env.with(
                                env.insert(
                                    REMOTE_ADDRESS@,
                                    Ann::of(ValueModel::Text(client_ip)),
                                ),
                            ),
                            ..request
                        },
                    )
                } else {
                    value
                },
                None => value,
            },
            _ => value,
        }
    }

    /// A user whose address is left open gets that of the client.
    open spec fn user_of(&self, value: Ann<UserModel>, state: ProcessingState) -> Ann<UserModel> {
        match (value.value, self.client_ip.deep_view()) {
            (Some(user), Some(client_ip)) => if user.ip_address.value == Some(AUTO_ADDRESS@) {
                value.with(UserModel { ip_address: user.ip_address.with(client_ip), ..user })
            } else {
                value
            },
            _ => value,
        }
    }

    /// A missing SDK is read off the name that the client gave.
    open spec fn client_sdk_info_of(
        &self,
        value: Ann<ClientSdkInfoModel>,
        state: ProcessingState,
    ) -> Ann<ClientSdkInfoModel> {
        match (value.value, self.auth) {
            (None, Some(auth)) => Ann { value: client_as_sdk(auth.client@), meta: value.meta },
            _ => value,
        }
    }

    /// An exception that ends up with neither a type nor a message gets an error,
    /// unless it has one.
    open spec fn exception_of(&self, value: Ann<ExceptionModel>, state: ProcessingState) -> Ann<
        ExceptionModel,
    > {
        match value.value {
            Some(exception) => {
                let normal = normal_exception(exception);
                Ann {
                    value: Some(normal),
                    meta: if normal.ty.value is None && normal.value.value is None
                        && value.meta.errors.len() == 0 {
                        value.meta.with_error(EXCEPTION_INVALID@, None)
                    } else {
                        value.meta
                    },
                }
            },
            None => value,
        }
    }

    open spec fn frame_of(&self, value: Ann<FrameModel>, state: ProcessingState) -> Ann<FrameModel> {
        match value.value {
            Some(frame) => value.with(normal_frame(frame)),
            None => value,
        }
    }

    fn process_string(&self, value: Annotated<String>, state: ProcessingState) -> (res: Annotated<
        String,
    >) {
        match state.attrs().cap_size {
            Some(cap) => value.trim_string(cap),
            None => value,
        }
    }

    fn process_event(&self, event: Annotated<Event>, state: ProcessingState) -> (res: Annotated<
        Event,
    >) {
        let Annotated(value, meta) = event;
        match value {
            Some(value) => {
                let needed = if value.timestamp.0.is_none() {
                    Some(utc_now())
                } else {
                    None
                };
                let received = utc_now();
                let created = match needed {
                    Some(created) => created,
                    None => received,
                };
                let ghost clock = Clock { created, received };
                assert(clock.well_formed());
                Annotated(Some(self.normalize_event(value, created, received)), meta)
            },
            None => {
                let ghost epoch = Timestamp { seconds: 0, nanoseconds: 0 };
                let ghost clock = Clock { created: epoch, received: epoch };
                assert(clock.well_formed());
                Annotated(None, meta)
            },
        }
    }

    fn process_breadcrumb(&self, breadcrumb: Annotated<Breadcrumb>, state: ProcessingState) -> (res:
        Annotated<Breadcrumb>) {
        let Annotated(value, meta) = breadcrumb;
        let value = match value {
            Some(breadcrumb) => {
                let mut breadcrumb = breadcrumb;
                breadcrumb.ty = breadcrumb.ty.or_value("default".to_owned());
                breadcrumb.level = breadcrumb.level.or_value(Level::Info);
                Some(breadcrumb)
            },
            None => None,
        };
        Annotated(value, meta)
    }

    fn process_request(&self, request: Annotated<Request>, state: ProcessingState) -> (res:
        Annotated<Request>) {
        let Annotated(value, meta) = request;
        let value = match (value, &self.client_ip) {
            (Some(request), Some(client_ip)) => {
                let Request { env, other } = request;
                let Annotated(env, env_meta) = env;
                let env = match env {
                    Some(env) => if is_address_open(&env) {
                        let address = Annotated::new(Value::String(client_ip.clone()));
                        Some(env.insert(REMOTE_ADDRESS.to_owned(), address))
                    } else {
                        Some(env)
                    },
                    None => None,
                };
                Some(Request { env: Annotated(env, env_meta), other })
            },
            (value, _) => value,
        };
        Annotated(value, meta)
    }

    fn process_user(&self, user: Annotated<User>, state: ProcessingState) -> (res: Annotated<User>) {
        let Annotated(value, meta) = user;
        let value = match (value, &self.client_ip) {
            (Some(user), Some(client_ip)) => {
                let mut user = user;
                let is_auto = match &user.ip_address.0 {
                    Some(address) => address.is_auto(),
                    None => false,
                };
                if is_auto {
                    user.ip_address = Annotated(Some(IpAddr(client_ip.clone())), user.ip_address.1);
                }
                Some(user)
            },
            (value, _) => value,
        };
        Annotated(value, meta)
    }

    fn process_client_sdk_info(&self, info: Annotated<ClientSdkInfo>, state: ProcessingState) -> (res:
        Annotated<ClientSdkInfo>) {
        let Annotated(value, meta) = info;
        let value = match (value, &self.auth) {
            (None, Some(auth)) => parse_client_as_sdk(auth),
            (value, _) => value,
        };
        Annotated(value, meta)
    }

    fn process_exception(&self, exception: Annotated<Exception>, state: ProcessingState) -> (res:
        Annotated<Exception>) {
        let Annotated(value, meta) = exception;
        match value {
            Some(exception) => {
                let mut exception = exception;
                let mut meta = meta;
                exception.stacktrace = process_non_raw_stacktrace(exception.stacktrace);
                let plain = plain_value(exception.value);
                let (ty, plain) = parse_type_and_value(exception.ty, plain);
                exception.ty = ty;
                exception.value = lenient_value(plain);
                if exception.ty.0.is_none() && exception.value.0.is_none() && !meta.has_errors() {
                    meta.add_error(EXCEPTION_INVALID, None);
                }
                Annotated(Some(exception), meta)
            },
            None => Annotated(None, meta),
        }
    }

    fn process_frame(&self, frame: Annotated<Frame>, state: ProcessingState) -> (res: Annotated<
        Frame,
    >) {
        let Annotated(value, meta) = frame;
        let value = match value {
            Some(frame) => {
                let mut frame = frame;
                frame.in_app = frame.in_app.or_value(false);
                frame.function = drop_unknown(frame.function);
                frame.symbol = drop_unknown(frame.symbol);
                frame.pre_lines = fill_lines(frame.pre_lines);
                frame.post_lines = fill_lines(frame.post_lines);
                Some(frame)
            },
            None => None,
        };
        Annotated(value, meta)
    }
}

} // verus!
