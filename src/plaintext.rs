use vstd::prelude::*;

use crate::common::Game;
use crate::error::ErrorView;
use crate::opcodes::{spec_lookup_name, CommandView};
use crate::text::{spec_parse_i32, split_spec, strip_noise, trimmed};

verus! {

/// A plaintext line once normalized: trimmed, then without `)`, `;` and spaces.
pub open spec fn normalized(line: Seq<char>) -> Seq<char> {
    strip_noise(trimmed(line))
}

/// The argument values of `tokens`, or the first token that is no 32-bit
/// integer.
pub open spec fn parse_args(tokens: Seq<Seq<char>>) -> Result<Seq<i32>, Seq<char>>
    decreases tokens.len(),
{
    if tokens.len() == 0 {
        Ok(Seq::empty())
    } else {
        match spec_parse_i32(tokens[0]) {
            None => Err(tokens[0]),
            Some(v) => match parse_args(tokens.drop_first()) {
                Ok(rest) => Ok(seq![v] + rest),
                Err(t) => Err(t),
            },
        }
    }
}

/// What one plaintext line yields: nothing for a blank line, a comment or a
/// line that does not hold exactly one `(`; otherwise the command
/// `name(args)`, whose name must be in the table and whose arguments must be
/// integers, as many as the table declares.
pub open spec fn parse_line(game: Game, line: Seq<char>) -> Result<Option<CommandView>, ErrorView> {
    let norm = normalized(line);
    let parts = split_spec(norm, '(');
    if norm.len() == 0 || norm[0] == '#' {
        Ok(None)
    } else if parts.len() != 2 {
        Ok(None)
    } else {
        match spec_lookup_name(game, parts[0]) {
            Err(e) => Err(e),
            Ok(m) => match parse_args(split_spec(parts[1], ',')) {
                Err(token) => Err(ErrorView::ArgumentParseError(parts[0], token)),
                Ok(args) => if args.len() != m.param_count {
                    Err(ErrorView::ArgumentParseError(parts[0], parts[1]))
                } else {
                    Ok(Some(CommandView { meta: m, args }))
                },
            },
        }
    }
}

/// The commands of a plaintext timeline, line by line; the first failing
/// line decides the error.
pub open spec fn decode_lines(game: Game, lines: Seq<Seq<char>>) -> Result<Seq<CommandView>, ErrorView>
    decreases lines.len(),
{
    if lines.len() == 0 {
        Ok(Seq::empty())
    } else {
        match parse_line(game, lines[0]) {
            Err(e) => Err(e),
            Ok(None) => decode_lines(game, lines.drop_first()),
            Ok(Some(c)) => match decode_lines(game, lines.drop_first()) {
                Ok(rest) => Ok(seq![c] + rest),
                Err(e) => Err(e),
            },
        }
    }
}

/// `pre` followed by the commands of `r`, or the error of `r`.
pub open spec fn prepend_lines(pre: Seq<CommandView>, r: Result<Seq<CommandView>, ErrorView>) -> Result<
    Seq<CommandView>,
    ErrorView,
> {
    match r {
        Ok(rest) => Ok(pre + rest),
        Err(e) => Err(e),
    }
}

} // verus!
