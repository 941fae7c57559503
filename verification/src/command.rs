//! A request as a flat list of tokens, and what is shown for its result.

use crate::codec::{transform, transformed};
use crate::error::CodecError;
use crate::scheme::{list_schemes, scheme_order, Command, Scheme};
use crate::text::{join_tokens, joined, lowercased, token_views};
use vstd::prelude::*;
use vstd::string::*;
use vstd::utf8::encode_utf8;

verus! {

/// What is shown for a request that succeeded: the whole text, the byte range
/// in it that holds the result, and a label for that range.
#[derive(Clone, Debug, PartialEq, Eq)]
pub struct CommandOutput {
    pub text: String,
    pub range_start: usize,
    pub range_end: usize,
    pub label: String,
}

/// One scheme offered while the first token is still to be chosen.
#[derive(Clone, Debug, PartialEq, Eq)]
pub struct Completion {
    pub label: String,
    pub new_text: String,
    pub run_command: bool,
}

/// The text in front of the result.
pub open spec fn shown_prefix(input: Seq<char>) -> Seq<char> {
    "Input: "@ + input + "\n\nResult: "@
}

/// The label of the result's range.
pub open spec fn shown_label(result: Seq<char>, format: Seq<char>, command: Seq<char>) -> Seq<
    char,
> {
    result + " ("@ + format + " "@ + command + ")"@
}

/// Whether `out` shows `result` for the given input, scheme name and command
/// name. The range is counted in bytes of UTF-8, and covers the result and
/// nothing else.
pub open spec fn shows(
    out: CommandOutput,
    input: Seq<char>,
    result: Seq<char>,
    format: Seq<char>,
    command: Seq<char>,
) -> bool {
    &&& out.text@ == shown_prefix(input) + result
    &&& out.range_start == encode_utf8(shown_prefix(input)).len() as usize
    &&& out.range_end == encode_utf8(out.text@).len() as usize
    &&& out.label@ == shown_label(result, format, command)
}

/// The scheme name of a request: its first token in lowercase.
pub open spec fn request_format(args: Seq<String>) -> Seq<char> {
    lowercased(args[0]@)
}

/// The payload of a request: its tokens after the first, joined by single
/// spaces.
pub open spec fn request_input(args: Seq<String>) -> Seq<char> {
    joined(token_views(args).skip(1))
}

/// What `run_command` owes for a command name and a list of tokens.
pub open spec fn run_outcome(
    command_name: Seq<char>,
    args: Seq<String>,
    r: Result<CommandOutput, CodecError>,
) -> bool {
    if args.len() < 2 {
        r == Err::<CommandOutput, CodecError>(CodecError::Usage)
    } else {
        let format = request_format(args);
        let input = request_input(args);
        match (Command::named(command_name), Scheme::named(format)) {
            (None, _) => r matches Err(CodecError::UnknownCommand(name)) && name@ == command_name,
            (Some(_), None) => r matches Err(CodecError::UnsupportedFormat(name)) && name@
                == format,
            (Some(command), Some(scheme)) => match transformed(command, scheme, input) {
                Some(result) => r is Ok && shows(r->Ok_0, input, result, format, command_name),
                None => match command {
                    Command::Encode => r matches Err(CodecError::EncodeError(_)),
                    Command::Decode => r matches Err(CodecError::DecodeError(_)),
                },
            },
        }
    }
}

/// Runs one request. Token 0 names the scheme, in any case; the tokens after
/// it, joined by single spaces, are the payload. Fewer than two tokens are a
/// usage error, whatever the command.
pub fn run_command(command_name: &str, args: &Vec<String>) -> (r: Result<
    CommandOutput,
    CodecError,
>)
    ensures
        run_outcome(command_name@, args@, r),
{
    if args.len() < 2 {
        return Err(CodecError::Usage);
    }
    let format = args[0].as_str().to_lowercase();
    let input = join_tokens(args, 1);
    let command = match Command::from_name(command_name) {
        Some(command) => command,
        None => {
            return Err(CodecError::UnknownCommand(command_name.to_owned()));
        },
    };
    let result: String = match transform(command, format.as_str(), input.as_str()) {
        Ok(result) => result,
        Err(e) => {
            return Err(e);
        },
    };
    let mut text = "Input: ".to_owned();
    text.append(input.as_str());
    text.append("\n\nResult: ");
    let range_start = text.as_str().len();
    assert(text@ =~= shown_prefix(input@));
    text.append(result.as_str());
    let range_end = text.as_str().len();
    let mut label = result.clone();
    label.append(" (");
    label.append(format.as_str());
    label.append(" ");
    label.append(command_name);
    label.append(")");
    proof {
        let shown = shown_prefix(input@);
        assert(text@ =~= shown + result@);
        assert(label@ =~= shown_label(result@, format@, command_name@));
    }
    Ok(CommandOutput { text, range_start, range_end, label })
}

/// The schemes offered for the first token: all five while no token is
/// given, none after that. Choosing one does not run the command yet.
pub fn complete_argument(args: &Vec<String>) -> (r: Vec<Completion>)
    ensures
        args@.len() > 0 ==> r@.len() == 0,
        args@.len() == 0 ==> r@.len() == 5 && forall|i: int|
            0 <= i < 5 ==> (#[trigger] r@[i]).new_text@ == scheme_order()[i].spec_name()
                && r@[i].label@ == scheme_order()[i].spec_label() && !r@[i].run_command,
{
    let mut offers: Vec<Completion> = Vec::new();
    if args.len() > 0 {
        return offers;
    }
    let schemes = list_schemes();
    let mut i: usize = 0;
    while i < 5
        invariant
            i <= 5,
            schemes@.len() == 5,
            forall|k: int|
                0 <= k < 5 ==> (#[trigger] schemes@[k]).0@ == scheme_order()[k].spec_name()
                    && schemes@[k].1@ == scheme_order()[k].spec_label(),
            offers@.len() == i,
            forall|k: int|
                0 <= k < i ==> (#[trigger] offers@[k]).new_text@ == scheme_order()[k].spec_name()
                    && offers@[k].label@ == scheme_order()[k].spec_label()
                    && !offers@[k].run_command,
        decreases 5 - i,
    {
        offers.push(
            Completion {
                label: schemes[i].1.clone(),
                new_text: schemes[i].0.clone(),
                run_command: false,
            },
        );
        i += 1;
    }
    offers
}

} // verus!
