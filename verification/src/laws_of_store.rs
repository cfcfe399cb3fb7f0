//! What the normalization does to each part of an event, stated on the attributes that
//! go in and come out.

use crate::annotated::{Ann, MetaModel, ValueModel};
use crate::laws_of_text::{
    law_first_index_has_none_before, law_trim_takes_white_space_off_the_ends,
};
use crate::mechanism::{named_mechanism, os_hint};
use crate::outside::{type_and_value, unicode_word, url_path, word_char};
use crate::processor::{capped, Clock, ProcessingState, Processor};
use crate::protocol::{
    BreadcrumbModel, EventModel, EventType, ExceptionModel, FrameModel, Level, RequestModel,
    StacktraceModel, TagModel, UserModel,
};
use crate::store::{
    client_as_sdk, completed_frame, filename_of, groups_in, is_environment_tag, non_raw_frame,
    non_raw_stacktrace, normal_exception, other_tags, tag_value, tagged_environment, typed_value,
    url_like, StoreNormalizeProcessor,
};
use crate::text::{first_index, white_space};
use vstd::prelude::*;

verus! {

/// The beginnings by which a file name is known as a URL.
pub proof fn law_urls_by_their_first_characters(name: Seq<char>)
    ensures
        url_like(name) <==> {
            ||| name.len() >= 5 && name.take(5) == seq!['f', 'i', 'l', 'e', ':']
            ||| name.len() >= 5 && name.take(5) == seq!['h', 't', 't', 'p', ':']
            ||| name.len() >= 6 && name.take(6) == seq!['h', 't', 't', 'p', 's', ':']
            ||| name.len() >= 13 && name.take(13) == seq![
                'a',
                'p',
                'p',
                'l',
                'e',
                'w',
                'e',
                'b',
                'd',
                'a',
                't',
                'a',
                ':',
            ]
        },
{
    reveal_strlit("file:");
    reveal_strlit("http:");
    reveal_strlit("https:");
    reveal_strlit("applewebdata:");
    assert("file:"@ =~= seq!['f', 'i', 'l', 'e', ':']);
    assert("http:"@ =~= seq!['h', 't', 't', 'p', ':']);
    assert("https:"@ =~= seq!['h', 't', 't', 'p', 's', ':']);
    assert("applewebdata:"@ =~= seq![
        'a',
        'p',
        'p',
        'l',
        'e',
        'w',
        'e',
        'b',
        'd',
        'a',
        't',
        'a',
        ':',
    ]);
}

/// The file name for an absolute path is the path that was found in it, where that is
/// there and is neither empty nor a single slash, and else the absolute path.
pub proof fn law_filename_for_an_absolute_path(abs_path: Seq<char>, path: Seq<char>)
    ensures
        filename_of(abs_path, None) == abs_path,
        path == Seq::<char>::empty() ==> filename_of(abs_path, Some(path)) == abs_path,
        path == seq!['/'] ==> filename_of(abs_path, Some(path)) == abs_path,
        path != Seq::<char>::empty() && path != seq!['/'] ==> filename_of(abs_path, Some(path))
            == path,
{
    reveal_strlit("/");
    assert("/"@ =~= seq!['/']);
    if path.len() == 0 {
        assert(path =~= Seq::<char>::empty());
    }
}

/// What completing a frame makes of its two paths, given what a URL parser found. All
/// else in the frame stays.
pub proof fn law_paths_of_a_completed_frame(frame: FrameModel, path: Option<Seq<char>>)
    ensures
        ({
            let after = completed_frame(frame, path);
            &&& frame.abs_path.value is Some ==> after.abs_path == frame.abs_path
            &&& frame.abs_path.value is None ==> after.abs_path == frame.filename
            &&& frame.abs_path.value is Some && frame.filename.value is Some ==> after.filename
                == frame.filename
            &&& frame.abs_path.value is None && frame.filename.value is None
                ==> after.filename.value is None && after.filename.meta == MetaModel::blank()
            &&& frame.abs_path.value is Some != frame.filename.value is Some ==> {
                let known = if frame.abs_path.value is Some {
                    frame.abs_path.value->0
                } else {
                    frame.filename.value->0
                };
                &&& after.filename.meta == MetaModel::blank()
                &&& url_like(known) ==> after.filename.value == Some(filename_of(known, path))
                &&& !url_like(known) ==> after.filename.value == Some(known)
            }
            &&& after.function == frame.function
            &&& after.symbol == frame.symbol
            &&& after.line == frame.line
            &&& after.pre_lines == frame.pre_lines
            &&& after.post_lines == frame.post_lines
            &&& after.in_app == frame.in_app
            &&& after.other == frame.other
        }),
{
}

/// A frame is completed with the path that is found in the one path that it has: a URL
/// that is a file name or an absolute path gives the file name by its path.
pub proof fn law_frame_is_completed_from_its_url(frame: Ann<FrameModel>)
    requires
        frame.value is Some,
    ensures
        ({
            let given = frame.value->0;
            let after = non_raw_frame(frame).value->0;
            &&& non_raw_frame(frame).value is Some
            &&& non_raw_frame(frame).meta == frame.meta
            &&& given.abs_path.value is Some ==> after.abs_path == given.abs_path
            &&& given.abs_path.value is None ==> after.abs_path == given.filename
            &&& given.abs_path.value is Some && given.filename.value is Some ==> after.filename
                == given.filename
            &&& given.abs_path.value is None && given.filename.value is None
                ==> after.filename.value is None && after.filename.meta == MetaModel::blank()
            &&& given.abs_path.value is Some != given.filename.value is Some ==> {
                let known = if given.abs_path.value is Some {
                    given.abs_path.value->0
                } else {
                    given.filename.value->0
                };
                let path = url_path(known);
                &&& after.filename.meta == MetaModel::blank()
                &&& after.filename.value is Some
                &&& after.filename.value->0 == (if url_like(known) && path is Some && path->0
                    != Seq::<char>::empty() && path->0 != seq!['/'] {
                    path->0
                } else {
                    known
                })
            }
            &&& after.function == given.function
            &&& after.symbol == given.symbol
            &&& after.line == given.line
            &&& after.pre_lines == given.pre_lines
            &&& after.post_lines == given.post_lines
            &&& after.in_app == given.in_app
            &&& after.other == given.other
        }),
{
    let given = frame.value->0;
    let known = if given.abs_path.value is Some {
        given.abs_path.value->0
    } else {
        given.filename.value->0
    };
    if let Some(path) = url_path(known) {
        law_filename_for_an_absolute_path(known, path);
    }
}

/// A missing frame stays as it is.
pub proof fn law_missing_frame_is_not_completed(frame: Ann<FrameModel>)
    requires
        frame.value is None,
    ensures
        non_raw_frame(frame) == frame,
{
}

/// Every frame of a stack trace is completed, each in its place, and a frame that has
/// one of its paths has both afterwards. All else in the stack trace stays.
pub proof fn law_every_frame_is_completed(stacktrace: Ann<StacktraceModel>)
    ensures
        ({
            let after = non_raw_stacktrace(stacktrace);
            &&& after.meta == stacktrace.meta
            &&& after.value is Some <==> stacktrace.value is Some
            &&& stacktrace.value is Some ==> {
                let given = stacktrace.value->0.frames;
                let frames = after.value->0.frames;
                &&& after.value->0.other == stacktrace.value->0.other
                &&& frames.meta == given.meta
                &&& frames.value is Some <==> given.value is Some
                &&& given.value is Some ==> {
                    &&& frames.value->0.len() == given.value->0.len()
                    &&& forall|i: int|
                        0 <= i < given.value->0.len() ==> #[trigger] frames.value->0[i]
                            == non_raw_frame(given.value->0[i])
                    &&& forall|i: int|
                        0 <= i < given.value->0.len() && (#[trigger] given.value->0[i]).value is Some
                            && (given.value->0[i].value->0.filename.value is Some
                            || given.value->0[i].value->0.abs_path.value is Some) ==> {
                            &&& frames.value->0[i].value is Some
                            &&& frames.value->0[i].value->0.filename.value is Some
                            &&& frames.value->0[i].value->0.abs_path.value is Some
                        }
                }
            }
        }),
{
}

/// Parts into which a message was taken apart replace the message, the second one
/// without white space at its ends, if and only if there is a message without a type.
/// The result tells from where to where the second part is kept.
pub proof fn law_parts_of_a_message_are_used(
    ty: Ann<Seq<char>>,
    value: Ann<Seq<char>>,
    first: Seq<char>,
    second: Seq<char>,
) -> (kept: (int, int))
    ensures
        ({
            let (after_ty, after_value) = typed_value(ty, value, Some((first, second)));
            &&& 0 <= kept.0 <= kept.1 <= second.len()
            &&& forall|i: int| 0 <= i < kept.0 ==> white_space(#[trigger] second[i])
            &&& forall|i: int| kept.1 <= i < second.len() ==> white_space(#[trigger] second[i])
            &&& kept.0 < kept.1 ==> !white_space(second[kept.0]) && !white_space(second[kept.1 - 1])
            &&& ty.value is None && value.value is Some ==> {
                &&& after_ty.value == Some(first)
                &&& after_ty.meta == MetaModel::blank()
                &&& after_value.value == Some(second.subrange(kept.0, kept.1))
                &&& after_value.meta == MetaModel::blank()
            }
            &&& !(ty.value is None && value.value is Some) ==> after_ty == ty && after_value
                == value
        }),
{
    law_trim_takes_white_space_off_the_ends(second)
}

/// Without parts, type and message stay.
pub proof fn law_message_without_parts_stays(ty: Ann<Seq<char>>, value: Ann<Seq<char>>)
    ensures
        typed_value(ty, value, None) == (ty, value),
{
}

/// A message that is a word, a colon and a rest without a line feed is taken apart where
/// there is no type: the word becomes the type, and the rest the message, without the
/// white space at its ends. The result tells from where to where the message is kept.
pub proof fn law_matching_message_is_split(
    ty: Ann<Seq<char>>,
    value: Ann<Seq<char>>,
    at: int,
) -> (kept: (int, int))
    requires
        ty.value is None,
        value.value is Some,
        0 < at < value.value->0.len(),
        value.value->0[at] == ':',
        forall|i: int|
            0 <= i < at ==> ({
                let c = #[trigger] value.value->0[i];
                'a' <= c <= 'z' || 'A' <= c <= 'Z' || '0' <= c <= '9' || c == '_' || c > '\u{7f}'
                    && unicode_word(c)
            }),
        forall|i: int| at < i < value.value->0.len() ==> #[trigger] value.value->0[i] != '\n',
    ensures
        ({
            let text = value.value->0;
            let (after_ty, after_value) = typed_value(ty, value, groups_in(value));
            &&& at < kept.0 <= kept.1 <= text.len()
            &&& forall|i: int| at < i < kept.0 ==> white_space(#[trigger] text[i])
            &&& forall|i: int| kept.1 <= i < text.len() ==> white_space(#[trigger] text[i])
            &&& kept.0 < kept.1 ==> !white_space(text[kept.0]) && !white_space(text[kept.1 - 1])
            &&& after_ty.value == Some(text.take(at))
            &&& after_ty.meta == MetaModel::blank()
            &&& after_value.value == Some(text.subrange(kept.0, kept.1))
            &&& after_value.meta == MetaModel::blank()
        }),
{
    let text = value.value->0;
    let beyond_ascii = |c: char| unicode_word(c);
    assert forall|i: int| 0 <= i < at implies text[i] != ':' by {
        let c = text[i];
    }
    law_first_index_has_none_before(text, ':', at);
    assert forall|i: int| 0 <= i < at implies #[trigger] word_char(text[i], beyond_ascii) by {
        let c = text[i];
    }
    let rest = text.skip(at + 1);
    assert(type_and_value(text, beyond_ascii) == Some((text.take(at), rest)));
    let inner = law_parts_of_a_message_are_used(ty, value, text.take(at), rest);
    assert(rest.subrange(inner.0, inner.1) =~= text.subrange(
        at + 1 + inner.0,
        at + 1 + inner.1,
    ));
    assert forall|i: int| at < i < at + 1 + inner.0 implies white_space(#[trigger] text[i]) by {
        assert(white_space(rest[i - at - 1]));
    }
    assert forall|i: int| at + 1 + inner.1 <= i < text.len() implies white_space(
        #[trigger] text[i],
    ) by {
        assert(white_space(rest[i - at - 1]));
    }
    (at + 1 + inner.0, at + 1 + inner.1)
}

/// No other message is taken apart: where a type came out of a message, it is a word
/// before a colon with a rest on one line, and where none did, both stay.
pub proof fn law_only_matching_messages_are_split(ty: Ann<Seq<char>>, value: Ann<Seq<char>>)
    ensures
        ({
            let (after_ty, after_value) = typed_value(ty, value, groups_in(value));
            &&& ty.value is Some ==> after_ty == ty && after_value == value
            &&& after_ty.value is None ==> after_ty == ty && after_value == value
            &&& ty.value is None && after_ty.value is Some ==> {
                let text = value.value->0;
                let at = after_ty.value->0.len() as int;
                &&& value.value is Some
                &&& 0 < at < text.len()
                &&& after_ty.value->0 == text.take(at)
                &&& text[at] == ':'
                &&& forall|i: int|
                    0 <= i < at ==> ({
                        let c = #[trigger] text[i];
                        'a' <= c <= 'z' || 'A' <= c <= 'Z' || '0' <= c <= '9' || c == '_' || c
                            > '\u{7f}' && unicode_word(c)
                    })
                &&& forall|i: int| at < i < text.len() ==> #[trigger] text[i] != '\n'
            }
        }),
{
    if ty.value is None && value.value is Some {
        let text = value.value->0;
        let beyond_ascii = |c: char| unicode_word(c);
        if type_and_value(text, beyond_ascii) is Some {
            let at = first_index(text, ':');
            assert forall|i: int| 0 <= i < at implies ({
                let c = #[trigger] text[i];
                'a' <= c <= 'z' || 'A' <= c <= 'Z' || '0' <= c <= '9' || c == '_' || c > '\u{7f}'
                    && unicode_word(c)
            }) by {
                assert(word_char(text[i], beyond_ascii));
            }
        }
    }
}

/// An exception is processed by completing its stack trace and by taking its type out of
/// its message; all else in it stays, and its metadata gains the one error exactly where
/// it then has neither type nor message and had no error.
pub proof fn law_exception_is_processed(
    processor: StoreNormalizeProcessor,
    exception: Ann<ExceptionModel>,
    state: ProcessingState,
)
    ensures
        ({
            let after = processor.exception_of(exception, state);
            &&& after.value is Some <==> exception.value is Some
            &&& exception.value is None ==> after.meta == exception.meta
            &&& exception.value is Some ==> {
                let given = exception.value->0;
                let now = after.value->0;
                &&& (now.ty, now.value) == typed_value(given.ty, given.value, groups_in(given.value))
                &&& now.stacktrace == non_raw_stacktrace(given.stacktrace)
                &&& now.raw_stacktrace == given.raw_stacktrace
                &&& now.mechanism == given.mechanism
                &&& now.other == given.other
                &&& after.meta.remarks == exception.meta.remarks
                &&& after.meta.original_length == exception.meta.original_length
                &&& after.meta.original_value == exception.meta.original_value
                &&& after.meta.errors == (if exception.meta.errors.len() == 0 && now.ty.value is None
                    && now.value.value is None {
                    seq!["type or value required"@]
                } else {
                    exception.meta.errors
                })
                &&& normal_exception(given) == now
            }
        }),
{
    let after = processor.exception_of(exception, state);
    if exception.value is Some && exception.meta.errors.len() == 0 {
        assert(exception.meta.errors.push("type or value required"@) =~= seq![
            "type or value required"@,
        ]);
    }
}

/// An exception without a type whose message is a word, a colon and a rest without a line
/// feed has that word for its type once it is processed, and the rest without the white
/// space at its ends for its message. The result tells where that stands.
pub proof fn law_processed_exception_has_its_type(
    processor: StoreNormalizeProcessor,
    exception: Ann<ExceptionModel>,
    state: ProcessingState,
    at: int,
) -> (kept: (int, int))
    requires
        exception.value is Some,
        exception.value->0.ty.value is None,
        exception.value->0.value.value is Some,
        0 < at < exception.value->0.value.value->0.len(),
        exception.value->0.value.value->0[at] == ':',
        forall|i: int|
            0 <= i < at ==> ({
                let c = #[trigger] exception.value->0.value.value->0[i];
                'a' <= c <= 'z' || 'A' <= c <= 'Z' || '0' <= c <= '9' || c == '_' || c > '\u{7f}'
                    && unicode_word(c)
            }),
        forall|i: int|
            at < i < exception.value->0.value.value->0.len()
                ==> #[trigger] exception.value->0.value.value->0[i] != '\n',
    ensures
        ({
            let text = exception.value->0.value.value->0;
            let after = processor.exception_of(exception, state);
            &&& at < kept.0 <= kept.1 <= text.len()
            &&& forall|i: int| at < i < kept.0 ==> white_space(#[trigger] text[i])
            &&& forall|i: int| kept.1 <= i < text.len() ==> white_space(#[trigger] text[i])
            &&& kept.0 < kept.1 ==> !white_space(text[kept.0]) && !white_space(text[kept.1 - 1])
            &&& after.value is Some
            &&& after.meta == exception.meta
            &&& after.value->0.ty.value == Some(text.take(at))
            &&& after.value->0.value.value == Some(text.subrange(kept.0, kept.1))
        }),
{
    law_exception_is_processed(processor, exception, state);
    let given = exception.value->0;
    law_matching_message_is_split(given.ty, given.value, at)
}

/// A text is cut where the state lays down a limit, and stays where it does not.
pub proof fn law_text_is_processed(
    processor: StoreNormalizeProcessor,
    text: Ann<Seq<char>>,
    state: ProcessingState,
)
    ensures
        state.attrs.cap_size is None ==> processor.string_of(text, state) == text,
        state.attrs.cap_size is Some ==> processor.string_of(text, state) == capped(
            text,
            state.attrs.cap_size->0,
        ),
{
}

/// What processing makes of a frame: a question mark is no name, a frame is not of the
/// application unless it says so, and a missing source line is an empty one. All else
/// stays.
pub proof fn law_frame_is_processed(
    processor: StoreNormalizeProcessor,
    frame: Ann<FrameModel>,
    state: ProcessingState,
)
    ensures
        ({
            let after = processor.frame_of(frame, state);
            &&& after.meta == frame.meta
            &&& after.value is Some <==> frame.value is Some
            &&& frame.value is Some ==> {
                let given = frame.value->0;
                let now = after.value->0;
                &&& now.in_app.meta == given.in_app.meta
                &&& now.in_app.value == (match given.in_app.value {
                    Some(in_app) => Some(in_app),
                    None => Some(false),
                })
                &&& now.function.meta == given.function.meta
                &&& given.function.value == Some(seq!['?']) ==> now.function.value is None
                &&& given.function.value != Some(seq!['?']) ==> now.function.value
                    == given.function.value
                &&& now.symbol.meta == given.symbol.meta
                &&& given.symbol.value == Some(seq!['?']) ==> now.symbol.value is None
                &&& given.symbol.value != Some(seq!['?']) ==> now.symbol.value == given.symbol.value
                &&& now.pre_lines.meta == given.pre_lines.meta
                &&& now.pre_lines.value is Some <==> given.pre_lines.value is Some
                &&& given.pre_lines.value is Some ==> {
                    let lines = given.pre_lines.value->0;
                    &&& now.pre_lines.value->0.len() == lines.len()
                    &&& forall|i: int|
                        0 <= i < lines.len() ==> {
                            let line = #[trigger] now.pre_lines.value->0[i];
                            &&& line.meta == lines[i].meta
                            &&& line.value is Some
                            &&& line.value->0 == (match lines[i].value {
                                Some(text) => text,
                                None => Seq::<char>::empty(),
                            })
                        }
                }
                &&& now.post_lines.meta == given.post_lines.meta
                &&& now.post_lines.value is Some <==> given.post_lines.value is Some
                &&& given.post_lines.value is Some ==> {
                    let lines = given.post_lines.value->0;
                    &&& now.post_lines.value->0.len() == lines.len()
                    &&& forall|i: int|
                        0 <= i < lines.len() ==> {
                            let line = #[trigger] now.post_lines.value->0[i];
                            &&& line.meta == lines[i].meta
                            &&& line.value is Some
                            &&& line.value->0 == (match lines[i].value {
                                Some(text) => text,
                                None => Seq::<char>::empty(),
                            })
                        }
                }
                &&& now.filename == given.filename
                &&& now.abs_path == given.abs_path
                &&& now.line == given.line
                &&& now.other == given.other
            }
        }),
{
    reveal_strlit("?");
    assert("?"@ =~= seq!['?']);
}

/// A breadcrumb without a type is of the default one, and one without a level is
/// informational. All else stays.
pub proof fn law_breadcrumb_is_processed(
    processor: StoreNormalizeProcessor,
    breadcrumb: Ann<BreadcrumbModel>,
    state: ProcessingState,
)
    ensures
        ({
            let after = processor.breadcrumb_of(breadcrumb, state);
            &&& after.meta == breadcrumb.meta
            &&& after.value is Some <==> breadcrumb.value is Some
            &&& breadcrumb.value is Some ==> {
                let given = breadcrumb.value->0;
                let now = after.value->0;
                &&& now.ty.meta == given.ty.meta
                &&& now.ty.value == (match given.ty.value {
                    Some(ty) => Some(ty),
                    None => Some("default"@),
                })
                &&& now.level.meta == given.level.meta
                &&& now.level.value == (match given.level.value {
                    Some(level) => Some(level),
                    None => Some(Level::Info),
                })
                &&& now.other == given.other
            }
        }),
{
}

/// The variable `REMOTE_ADDR` of a request becomes the address of the client if and only
/// if that is known and the variable is the text `{{auto}}`. All else stays, the other
/// variables among it.
pub proof fn law_request_is_processed(
    processor: StoreNormalizeProcessor,
    request: Ann<RequestModel>,
    state: ProcessingState,
)
    ensures
        ({
            let after = processor.request_of(request, state);
            let open = request.value is Some && request.value->0.env.value is Some
                && request.value->0.env.value->0.contains_key("REMOTE_ADDR"@)
                && request.value->0.env.value->0["REMOTE_ADDR"@].value == Some(
                ValueModel::Text("{{auto}}"@),
            );
            &&& !open || processor.client_ip is None ==> after == request
            &&& open && processor.client_ip is Some ==> {
                let given = request.value->0;
                let now = after.value->0;
                &&& after.meta == request.meta
                &&& after.value is Some
                &&& now.other == given.other
                &&& now.env.meta == given.env.meta
                &&& now.env.value is Some
                &&& now.env.value->0.dom() == given.env.value->0.dom()
                &&& now.env.value->0["REMOTE_ADDR"@].value == Some(
                    ValueModel::Text(processor.client_ip->0@),
                )
                &&& now.env.value->0["REMOTE_ADDR"@].meta == MetaModel::blank()
                &&& forall|name: Seq<char>|
                    name != "REMOTE_ADDR"@ && given.env.value->0.contains_key(name)
                        ==> #[trigger] now.env.value->0[name] == given.env.value->0[name]
            }
        }),
{
    let after = processor.request_of(request, state);
    if request.value is Some && request.value->0.env.value is Some
        && request.value->0.env.value->0.contains_key("REMOTE_ADDR"@) && processor.client_ip is Some
        && after != request {
        assert(after.value->0.env.value->0.dom() =~= request.value->0.env.value->0.dom());
    }
}

/// The address of a user becomes that of the client if and only if that is known and the
/// address is `{{auto}}`. All else stays.
pub proof fn law_user_is_processed(
    processor: StoreNormalizeProcessor,
    user: Ann<UserModel>,
    state: ProcessingState,
)
    ensures
        ({
            let after = processor.user_of(user, state);
            let open = user.value is Some && user.value->0.ip_address.value == Some("{{auto}}"@);
            &&& !open || processor.client_ip is None ==> after == user
            &&& open && processor.client_ip is Some ==> {
                &&& after.meta == user.meta
                &&& after.value is Some
                &&& after.value->0.other == user.value->0.other
                &&& after.value->0.ip_address.meta == user.value->0.ip_address.meta
                &&& after.value->0.ip_address.value == Some(processor.client_ip->0@)
            }
        }),
{
}

/// The name of a client, which is left in one part, never tells of an SDK.
pub proof fn law_client_tells_of_no_sdk(client: Seq<char>)
    ensures
        client_as_sdk(client) is None,
{
}

/// An event is processed by normalizing it, and nothing is noted about it.
pub proof fn law_event_is_processed(
    processor: StoreNormalizeProcessor,
    event: Ann<EventModel>,
    state: ProcessingState,
    clock: Clock,
)
    ensures
        ({
            let after = processor.event_of(event, state, clock);
            &&& after.meta == event.meta
            &&& after.value is Some <==> event.value is Some
            &&& event.value is Some ==> after.value->0 == processor.normal_event(
                event.value->0,
                clock,
            )
        }),
{
}

/// The simple attributes of a normalized event: project, key and version are those of the
/// processor, the times those of the clock, and defaults stand in for what is missing.
pub proof fn law_simple_attributes(
    processor: StoreNormalizeProcessor,
    event: EventModel,
    clock: Clock,
)
    ensures
        ({
            let after = processor.normal_event(event, clock);
            &&& after.project.meta == event.project.meta
            &&& after.project.value == (match processor.project_id {
                Some(project) => Some(project),
                None => event.project.value,
            })
            &&& after.key_id.meta == event.key_id.meta
            &&& after.key_id.value == (match processor.key_id {
                Some(key) => Some(key@),
                None => event.key_id.value,
            })
            &&& after.version.meta == MetaModel::blank()
            &&& after.version.value == Some(processor.version@)
            &&& after.level.meta == event.level.meta
            &&& after.level.value == (match event.level.value {
                Some(level) => Some(level),
                None => Some(Level::Error),
            })
            &&& after.logger.meta == event.logger.meta
            &&& after.logger.value == (match event.logger.value {
                Some(logger) => Some(logger),
                None => Some(Seq::<char>::empty()),
            })
            &&& after.timestamp.meta == event.timestamp.meta
            &&& after.timestamp.value == (match event.timestamp.value {
                Some(timestamp) => Some(timestamp),
                None => Some(clock.created),
            })
            &&& after.received.meta == event.received.meta
            &&& after.received.value == Some(clock.received)
            &&& after.dist.meta == event.dist.meta
            &&& after.dist.value == (match event.release.value {
                Some(_) => event.dist.value,
                None => None,
            })
            &&& after.extra.meta == event.extra.meta
            &&& after.extra.value == (match event.extra.value {
                Some(extra) => Some(extra),
                None => Some(Map::<Seq<char>, Ann<ValueModel>>::empty()),
            })
            &&& after.errors.meta == event.errors.meta
            &&& after.errors.value == (match event.errors.value {
                Some(errors) => Some(errors),
                None => Some(Seq::<Ann<ValueModel>>::empty()),
            })
        }),
{
}

/// The kind of an event: an error wherever the list of exceptions is not empty, and else
/// that of the first report which is present, in a fixed order.
pub proof fn law_kind_of_an_event(
    processor: StoreNormalizeProcessor,
    event: EventModel,
    clock: Clock,
)
    ensures
        ({
            let after = processor.normal_event(event, clock).ty;
            let thrown = event.exceptions.value is Some && event.exceptions.value->0.values.value
                is Some && event.exceptions.value->0.values.value->0.len() > 0;
            let csp = event.csp.value is Some;
            let hpkp = event.hpkp.value is Some;
            let expectct = event.expectct.value is Some;
            let expectstaple = event.expectstaple.value is Some;
            &&& after.meta == MetaModel::blank()
            &&& after.value == Some(EventType::Error) <==> thrown
            &&& after.value == Some(EventType::Csp) <==> !thrown && csp
            &&& after.value == Some(EventType::Hpkp) <==> !thrown && !csp && hpkp
            &&& after.value == Some(EventType::ExpectCT) <==> !thrown && !csp && !hpkp && expectct
            &&& after.value == Some(EventType::ExpectStaple) <==> !thrown && !csp && !hpkp
                && !expectct && expectstaple
            &&& after.value == Some(EventType::Default) <==> !thrown && !csp && !hpkp && !expectct
                && !expectstaple
        }),
{
}

proof fn lemma_other_tags_by_index(tags: Seq<TagModel>) -> (at: Seq<int>)
    ensures
        at.len() == other_tags(tags).len(),
        forall|k: int|
            0 <= k < at.len() ==> 0 <= #[trigger] at[k] < tags.len() && other_tags(tags)[k]
                == tags[at[k]] && !is_environment_tag(tags[at[k]]),
        forall|k: int, l: int| 0 <= k < l < at.len() ==> at[k] < at[l],
        forall|i: int|
            0 <= i < tags.len() && !is_environment_tag(#[trigger] tags[i]) ==> at.contains(i),
    decreases tags.len(),
{
    reveal(Seq::filter);
    if tags.len() == 0 {
        Seq::empty()
    } else {
        let rest = tags.drop_last();
        let before = lemma_other_tags_by_index(rest);
        if is_environment_tag(tags.last()) {
            assert forall|i: int|
                0 <= i < tags.len() && !is_environment_tag(#[trigger] tags[i]) implies before.contains(
                i,
            ) by {
                assert(tags[i] == rest[i]);
            }
            before
        } else {
            let at = before.push(tags.len() - 1);
            assert(other_tags(tags) == other_tags(rest).push(tags.last()));
            assert forall|i: int|
                0 <= i < tags.len() && !is_environment_tag(#[trigger] tags[i]) implies at.contains(
                i,
            ) by {
                if i < tags.len() - 1 {
                    assert(tags[i] == rest[i]);
                    assert(before.contains(i));
                    let k = choose|k: int| 0 <= k < before.len() && before[k] == i;
                    assert(at[k] == i);
                } else {
                    assert(at[before.len() as int] == i);
                }
            }
            at
        }
    }
}

/// A tag gives the environment if its key is the word `environment` and it has a value.
/// What it gives is that value.
pub proof fn law_tags_that_give_the_environment(
    key: Ann<Seq<char>>,
    value: Ann<Seq<char>>,
    meta: MetaModel,
)
    ensures
        is_environment_tag(Ann { value: Some((key, value)), meta }) <==> key.value == Some(
            "environment"@,
        ) && value.value is Some,
        !is_environment_tag(Ann { value: None, meta }),
        tag_value(Ann { value: Some((key, value)), meta }) == value.value,
        tag_value(Ann { value: None, meta }) is None,
{
}

/// An event with an environment keeps its tags. One without loses exactly those tags that
/// give one: the others are left, each once and in order. The result tells at which
/// indices they stood.
pub proof fn law_other_tags_are_kept(
    processor: StoreNormalizeProcessor,
    event: EventModel,
    clock: Clock,
) -> (at: Seq<int>)
    ensures
        ({
            let given = match event.tags.value {
                Some(tags) => tags,
                None => Seq::<TagModel>::empty(),
            };
            let after = processor.normal_event(event, clock).tags;
            &&& after.meta == event.tags.meta
            &&& after.value is Some
            &&& event.environment.value is Some ==> after.value->0 == given
            &&& event.environment.value is None ==> {
                &&& at.len() == after.value->0.len()
                &&& forall|k: int|
                    0 <= k < at.len() ==> {
                        &&& 0 <= #[trigger] at[k] < given.len()
                        &&& after.value->0[k] == given[at[k]]
                        &&& !is_environment_tag(given[at[k]])
                    }
                &&& forall|k: int, l: int| 0 <= k < l < at.len() ==> at[k] < at[l]
                &&& forall|i: int|
                    0 <= i < given.len() && !is_environment_tag(#[trigger] given[i])
                        ==> at.contains(i)
            }
        }),
{
    let given = match event.tags.value {
        Some(tags) => tags,
        None => Seq::<TagModel>::empty(),
    };
    lemma_other_tags_by_index(given)
}

proof fn lemma_no_environment_tag(tags: Seq<TagModel>)
    requires
        forall|i: int| 0 <= i < tags.len() ==> !is_environment_tag(#[trigger] tags[i]),
    ensures
        other_tags(tags) == tags,
        tagged_environment(tags) is None,
    decreases tags.len(),
{
    reveal(Seq::filter);
    if tags.len() > 0 {
        let rest = tags.drop_last();
        assert forall|i: int| 0 <= i < rest.len() implies !is_environment_tag(
            #[trigger] rest[i],
        ) by {
            assert(rest[i] == tags[i]);
        }
        lemma_no_environment_tag(rest);
        assert(!is_environment_tag(tags[tags.len() - 1]));
        assert(rest.push(tags.last()) =~= tags);
    } else {
        assert(other_tags(tags) =~= tags);
    }
}

/// Where no tag gives the environment, tags and environment stay.
pub proof fn law_tags_without_environment_stay(
    processor: StoreNormalizeProcessor,
    event: EventModel,
    clock: Clock,
)
    requires
        event.tags.value is Some,
        forall|i: int|
            0 <= i < event.tags.value->0.len() ==> ({
                let tag = #[trigger] event.tags.value->0[i];
                tag.value is None || (tag.value->0).0.value != Some("environment"@)
                    || (tag.value->0).1.value is None
            }),
    ensures
        processor.normal_event(event, clock).tags == event.tags,
        processor.normal_event(event, clock).environment == event.environment,
{
    let tags = event.tags.value->0;
    assert forall|i: int| 0 <= i < tags.len() implies !is_environment_tag(#[trigger] tags[i]) by {
        let tag = tags[i];
    }
    lemma_no_environment_tag(tags);
}

proof fn lemma_last_environment_tag(tags: Seq<TagModel>, i: int)
    requires
        0 <= i < tags.len(),
        is_environment_tag(tags[i]),
        forall|j: int| i < j < tags.len() ==> !is_environment_tag(#[trigger] tags[j]),
    ensures
        tagged_environment(tags) == tag_value(tags[i]),
    decreases tags.len(),
{
    if i < tags.len() - 1 {
        let rest = tags.drop_last();
        assert(!is_environment_tag(tags[tags.len() - 1]));
        assert forall|j: int| i < j < rest.len() implies !is_environment_tag(#[trigger] rest[j]) by {
            assert(rest[j] == tags[j]);
        }
        lemma_last_environment_tag(rest, i);
    }
}

/// The environment of an event: its own where it has one, else the value of the last tag
/// that gives one, else none. Its metadata stays.
pub proof fn law_environment_of_an_event(
    processor: StoreNormalizeProcessor,
    event: EventModel,
    clock: Clock,
    i: int,
)
    ensures
        ({
            let after = processor.normal_event(event, clock).environment;
            &&& after.meta == event.environment.meta
            &&& event.environment.value is Some ==> after.value == event.environment.value
            &&& event.environment.value is None && event.tags.value is None ==> after.value is None
            &&& event.environment.value is None && event.tags.value is Some && 0 <= i
                < event.tags.value->0.len() && event.tags.value->0[i].value is Some
                && (event.tags.value->0[i].value->0).0.value == Some("environment"@)
                && (event.tags.value->0[i].value->0).1.value is Some && (forall|j: int|
                i < j < event.tags.value->0.len() ==> ({
                    let tag = #[trigger] event.tags.value->0[j];
                    tag.value is None || (tag.value->0).0.value != Some("environment"@)
                        || (tag.value->0).1.value is None
                })) ==> after.value == (event.tags.value->0[i].value->0).1.value
        }),
{
    if event.environment.value is None && event.tags.value is Some {
        let tags = event.tags.value->0;
        if 0 <= i < tags.len() && is_environment_tag(tags[i]) && (forall|j: int|
            i < j < tags.len() ==> ({
                let tag = #[trigger] tags[j];
                tag.value is None || (tag.value->0).0.value != Some("environment"@)
                    || (tag.value->0).1.value is None
            })) {
            assert forall|j: int| i < j < tags.len() implies !is_environment_tag(
                #[trigger] tags[j],
            ) by {
                let tag = tags[j];
            }
            lemma_last_environment_tag(tags, i);
        }
    }
}

/// The user of an event: where the variable `REMOTE_ADDR` of its request is a text, a user
/// without an address gets that one, and where it is not, that of the client, if it is
/// known and used a public key or runs on the machine of the user. All else stays, and
/// where there is no address to give, the user does, too.
pub proof fn law_user_of_an_event(
    processor: StoreNormalizeProcessor,
    event: EventModel,
    clock: Clock,
)
    ensures
        ({
            let after = processor.normal_event(event, clock).user;
            let from_request = event.request.value is Some && event.request.value->0.env.value is Some
                && event.request.value->0.env.value->0.contains_key("REMOTE_ADDR"@)
                && event.request.value->0.env.value->0["REMOTE_ADDR"@].value is Some
                && event.request.value->0.env.value->0["REMOTE_ADDR"@].value->0 is Text;
            let is_public = processor.auth is Some && processor.auth->0.is_public;
            let at_user = event.platform.value == Some("javascript"@) || event.platform.value
                == Some("cocoa"@) || event.platform.value == Some("objc"@);
            let from_client = !from_request && processor.client_ip is Some && (is_public
                || at_user);
            &&& !from_request && !from_client ==> after == event.user
            &&& from_request || from_client ==> {
                let address = if from_request {
                    event.request.value->0.env.value->0["REMOTE_ADDR"@].value->0->Text_0
                } else {
                    processor.client_ip->0@
                };
                &&& after.meta == event.user.meta
                &&& after.value is Some
                &&& event.user.value is None ==> {
                    &&& after.value->0.other == Map::<Seq<char>, Ann<ValueModel>>::empty()
                    &&& after.value->0.ip_address.value == Some(address)
                    &&& after.value->0.ip_address.meta == MetaModel::blank()
                }
                &&& event.user.value is Some ==> {
                    let given = event.user.value->0;
                    &&& after.value->0.other == given.other
                    &&& given.ip_address.value is Some ==> after.value->0.ip_address
                        == given.ip_address
                    &&& given.ip_address.value is None ==> {
                        &&& after.value->0.ip_address.value == Some(address)
                        &&& after.value->0.ip_address.meta == MetaModel::blank()
                    }
                }
            }
        }),
{
}

/// A text in the variable `REMOTE_ADDR` of the request is the address of a user who had
/// none, present or not.
pub proof fn law_user_has_the_address_of_the_request(
    processor: StoreNormalizeProcessor,
    event: EventModel,
    clock: Clock,
    address: Seq<char>,
)
    requires
        event.request.value is Some,
        event.request.value->0.env.value is Some,
        event.request.value->0.env.value->0.contains_key("REMOTE_ADDR"@),
        event.request.value->0.env.value->0["REMOTE_ADDR"@].value == Some(
            ValueModel::Text(address),
        ),
        event.user.value is None || event.user.value->0.ip_address.value is None,
    ensures
        processor.normal_event(event, clock).user.value is Some,
        processor.normal_event(event, clock).user.value->0.ip_address.value == Some(address),
{
}

/// The exceptions of an event: as many as before, each in its place. The only one takes
/// over the stack trace of the event, the names in their mechanisms are filled in, and
/// all else stays.
pub proof fn law_exceptions_of_an_event(
    processor: StoreNormalizeProcessor,
    event: EventModel,
    clock: Clock,
)
    ensures
        ({
            let after = processor.normal_event(event, clock);
            let listed = event.exceptions.value is Some && event.exceptions.value->0.values.value
                is Some;
            &&& !listed ==> after.exceptions == event.exceptions && after.stacktrace
                == non_raw_stacktrace(event.stacktrace)
            &&& listed ==> {
                let given = event.exceptions.value->0;
                let now = after.exceptions.value->0;
                let before = given.values.value->0;
                let list = now.values.value->0;
                let moves = before.len() == 1 && before[0].value is Some && event.stacktrace.value
                    is Some;
                &&& after.exceptions.meta == event.exceptions.meta
                &&& after.exceptions.value is Some
                &&& now.other == given.other
                &&& now.values.meta == given.values.meta
                &&& now.values.value is Some
                &&& list.len() == before.len()
                &&& forall|i: int|
                    0 <= i < before.len() ==> {
                        let exception = #[trigger] list[i];
                        &&& exception.meta == before[i].meta
                        &&& exception.value is Some <==> before[i].value is Some
                        &&& before[i].value is Some ==> {
                            let old_one = before[i].value->0;
                            let new_one = exception.value->0;
                            &&& new_one.ty == old_one.ty
                            &&& new_one.value == old_one.value
                            &&& new_one.raw_stacktrace == old_one.raw_stacktrace
                            &&& new_one.other == old_one.other
                            &&& new_one.stacktrace == (if moves {
                                non_raw_stacktrace(event.stacktrace)
                            } else {
                                old_one.stacktrace
                            })
                            &&& new_one.mechanism.meta == old_one.mechanism.meta
                            &&& new_one.mechanism.value is Some
                                <==> old_one.mechanism.value is Some
                            &&& old_one.mechanism.value is Some ==> new_one.mechanism.value->0
                                == named_mechanism(old_one.mechanism.value->0, os_hint(event))
                        }
                    }
                &&& !moves ==> after.stacktrace == non_raw_stacktrace(event.stacktrace)
                &&& moves ==> after.stacktrace.value is None && after.stacktrace.meta
                    == MetaModel::blank()
            }
        }),
{
}

} // verus!
