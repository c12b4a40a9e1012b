//! Language-server commands.
//!
//! The configured command of a language server is a program followed by its
//! arguments, separated by white space.
use vstd::prelude::*;
use crate::text::{chars_of, is_white_space, push_range, white_space_at, words};

verus! {

/// Why a language server could not be started.
#[derive(Clone, Copy, Debug, PartialEq, Eq, Structural)]
pub enum LspError {
    /// The command holds no program name
    InvalidCommand,
}

/// The message of a language-server error.
pub open spec fn lsp_error_message(e: LspError) -> Seq<char> {
    match e {
        LspError::InvalidCommand => "Invalid LSP command"@,
    }
}

impl LspError {
    /// The message that describes the error.
    pub fn message(&self) -> (m: String)
        ensures
            m@ == lsp_error_message(*self),
    {
        match self {
            LspError::InvalidCommand => "Invalid LSP command".to_owned(),
        }
    }
}

/// The white-space separated words of `command`, in order.
pub fn command_words(command: &str) -> (ws: Vec<String>)
    ensures
        ws@.map_values(|w: String| w@) == words(command@),
{
    let v = chars_of(command);
    let n = v.len();
    let mut out: Vec<String> = Vec::new();
    let mut pos: usize = 0;
    assert(v@.skip(0) == v@);
    while pos < n
        invariant
            pos <= n == v@.len(),
            words(v@) == out@.map_values(|w: String| w@) + words(v@.skip(pos as int)),
        decreases n - pos,
    {
        let ghost rest = v@.skip(pos as int);
        if is_white_space(v[pos]) {
            assert(rest.drop_first() == v@.skip(pos + 1));
            pos = pos + 1;
        } else {
            let mut k = pos + 1;
            assert(rest.drop_first() == v@.skip(pos + 1));
            while k < n && !is_white_space(v[k])
                invariant
                    pos < k <= n == v@.len(),
                    rest == v@.skip(pos as int),
                    white_space_at(rest) == (k - pos) + white_space_at(v@.skip(k as int)),
                decreases n - k,
            {
                assert(v@.skip(k as int).drop_first() == v@.skip(k + 1));
                k = k + 1;
            }
            assert(white_space_at(rest) == k - pos);
            let mut w = String::new();
            push_range(&mut w, &v, pos, k);
            let ghost before = out@;
            out.push(w);
            proof {
                assert(rest.take(k - pos) == v@.subrange(pos as int, k as int));
                assert(rest.skip(k - pos) == v@.skip(k as int));
                assert(out@.map_values(|w: String| w@) == before.map_values(|w: String| w@).push(
                    v@.subrange(pos as int, k as int),
                ));
            }
            pos = k;
        }
    }
    assert(v@.skip(n as int) == Seq::<char>::empty());
    out
}

/// The program and the arguments of a language-server command; an error
/// when the command holds no word.
pub fn split_command(command: &str) -> (r: Result<(String, Vec<String>), LspError>)
    ensures
        words(command@).len() == 0 <==> r is Err,
        r matches Ok(parts) ==> parts.0@ == words(command@)[0] && parts.1@.map_values(
            |w: String| w@,
        ) == words(command@).drop_first(),
        r matches Err(e) ==> e == LspError::InvalidCommand,
{
    let ws = command_words(command);
    if ws.len() == 0 {
        return Err(LspError::InvalidCommand);
    }
    let program = ws[0].clone();
    let mut args: Vec<String> = Vec::new();
    let mut i: usize = 1;
    while i < ws.len()
        invariant
            1 <= i <= ws@.len(),
            args@.len() == i - 1,
            forall|j: int| 0 <= j < args@.len() ==> args@[j]@ == ws@[j + 1]@,
        decreases ws@.len() - i,
    {
        args.push(ws[i].clone());
        i = i + 1;
    }
    assert(args@.map_values(|w: String| w@) =~= ws@.map_values(|w: String| w@).drop_first());
    Ok((program, args))
}

} // verus!
