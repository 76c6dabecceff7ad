//! Display formatting for file paths referenced by tool calls.
//!
//! Paths are modelled as plain strings with `/` as the separator: a path is
//! absolute exactly when it starts with `/`, and joining appends a single
//! separator when the base does not already end in one. The bridge only
//! formats paths for display; reading and writing the files is the
//! filesystem bridge's business.

use vstd::prelude::*;
use vstd::string::*;
use crate::protocol::{McpInvocation, ToolCallLocation};
use crate::text::str_eq;

verus! {

/// Whether a path is relative: it does not start with `/`.
pub open spec fn is_relative_spec(p: Seq<char>) -> bool {
    !(p.len() > 0 && p[0] == '/')
}

/// `base` joined with `p`: `p` itself when absolute, otherwise `base`,
/// a separator unless `base` already ends in one, then `p`.
pub open spec fn join_path_spec(base: Seq<char>, p: Seq<char>) -> Seq<char> {
    if !is_relative_spec(p) {
        p
    } else if base.len() > 0 && base.last() == '/' {
        base + p
    } else {
        base + seq!['/'] + p
    }
}

/// Whether `prefix` is a prefix of `s`.
pub open spec fn starts_with_spec(s: Seq<char>, prefix: Seq<char>) -> bool {
    s.len() >= prefix.len() && s.subrange(0, prefix.len() as int) == prefix
}

/// What stripping `cwd` from the front of `raw` leaves: the empty path when
/// they are equal, the remainder after `cwd/` when `raw` lies under `cwd`,
/// nothing otherwise.
pub open spec fn strip_prefix_spec(cwd: Seq<char>, raw: Seq<char>) -> Option<Seq<char>> {
    if raw == cwd {
        Some(Seq::empty())
    } else if starts_with_spec(raw, cwd + seq!['/']) {
        Some(raw.subrange(cwd.len() as int + 1, raw.len() as int))
    } else {
        None
    }
}

/// The characters after the last `/` of `p`; empty when `p` ends in `/`.
pub open spec fn file_tail_spec(p: Seq<char>) -> Seq<char>
    decreases p.len(),
{
    if p.len() == 0 {
        Seq::empty()
    } else if p.last() == '/' {
        Seq::empty()
    } else {
        file_tail_spec(p.drop_last()).push(p.last())
    }
}

/// The file-name fallback: the last path component when it is non-empty,
/// else the raw string itself.
pub open spec fn file_fallback_spec(raw: Seq<char>) -> Seq<char> {
    if file_tail_spec(raw).len() > 0 {
        file_tail_spec(raw)
    } else {
        raw
    }
}

/// The display form of a raw path: relative to `cwd` when it lies under it,
/// else its file name, else the raw string.
pub open spec fn display_fs_path_spec(cwd: Seq<char>, raw: Seq<char>) -> Seq<char> {
    match strip_prefix_spec(cwd, raw) {
        Some(rel) => if rel.len() > 0 {
            rel
        } else {
            file_fallback_spec(raw)
        },
        None => file_fallback_spec(raw),
    }
}

/// Whether `s` starts with `prefix`.
pub fn starts_with_str(s: &str, prefix: &str) -> (r: bool)
    ensures
        r == starts_with_spec(s@, prefix@),
{
    let n = s.unicode_len();
    let m = prefix.unicode_len();
    if n < m {
        return false;
    }
    let mut i: usize = 0;
    while i < m
        invariant
            i <= m,
            m == prefix@.len(),
            n == s@.len(),
            m <= n,
            forall|j: int| 0 <= j < i ==> s@[j] == prefix@[j],
        decreases m - i,
    {
        if s.get_char(i) != prefix.get_char(i) {
            assert(s@[i as int] != prefix@[i as int]);
            assert(!starts_with_spec(s@, prefix@)) by {
                if starts_with_spec(s@, prefix@) {
                    assert(s@.subrange(0, m as int)[i as int] == prefix@[i as int]);
                }
            }
            return false;
        }
        i = i + 1;
    }
    assert(s@.subrange(0, m as int) =~= prefix@);
    true
}

/// Join `base` and `p` as paths.
pub fn join_path(base: &str, p: &str) -> (r: String)
    ensures
        r@ == join_path_spec(base@, p@),
{
    let p_len = p.unicode_len();
    if p_len > 0 && p.get_char(0) == '/' {
        return String::from_str(p);
    }
    let base_len = base.unicode_len();
    if base_len > 0 && base.get_char(base_len - 1) == '/' {
        assert(base@.last() == '/');
        String::from_str(base).concat(p)
    } else {
        let r = String::from_str(base).concat("/").concat(p);
        proof {
            reveal_strlit("/");
            assert("/"@ =~= seq!['/']);
        }
        r
    }
}

/// The characters after the last `/`.
fn file_tail(p: &str) -> (r: String)
    ensures
        r@ == file_tail_spec(p@),
{
    let n = p.unicode_len();
    let mut i: usize = n;
    proof {
        assert(p@.subrange(0, n as int) =~= p@);
        assert(file_tail_spec(p@.subrange(0, n as int)) + p@.subrange(n as int, n as int)
            =~= file_tail_spec(p@));
    }
    while i > 0 && p.get_char(i - 1) != '/'
        invariant
            i <= n,
            n == p@.len(),
            file_tail_spec(p@) == file_tail_spec(p@.subrange(0, i as int)) + p@.subrange(
                i as int,
                n as int,
            ),
        decreases i,
    {
        proof {
            let sub = p@.subrange(0, i as int);
            assert(sub.last() == p@[i - 1]);
            assert(sub.drop_last() =~= p@.subrange(0, i as int - 1));
            assert(file_tail_spec(sub) == file_tail_spec(sub.drop_last()).push(sub.last()));
            assert(file_tail_spec(sub.drop_last()).push(sub.last()) + p@.subrange(i as int, n as int)
                =~= file_tail_spec(sub.drop_last()) + p@.subrange(i as int - 1, n as int));
        }
        i = i - 1;
    }
    proof {
        let sub = p@.subrange(0, i as int);
        if i == 0 {
            assert(sub.len() == 0);
        } else {
            assert(sub.last() == p@[i - 1]);
            assert(sub.last() == '/');
        }
        assert(file_tail_spec(sub).len() == 0);
        assert(file_tail_spec(sub) + p@.subrange(i as int, n as int) =~= p@.subrange(
            i as int,
            n as int,
        ));
    }
    let tail = p.substring_char(i, n);
    String::from_str(tail)
}

/// The file-name fallback of a raw path.
fn file_fallback(raw_path: &str) -> (r: String)
    ensures
        r@ == file_fallback_spec(raw_path@),
{
    let tail = file_tail(raw_path);
    if tail.as_str().is_empty() {
        String::from_str(raw_path)
    } else {
        tail
    }
}

/// A user-friendly display form of `raw_path`: relative to `cwd` when it
/// lies under it, else its file name, else the raw string itself.
pub fn display_fs_path(cwd: &str, raw_path: &str) -> (r: String)
    ensures
        r@ == display_fs_path_spec(cwd@, raw_path@),
{
    if str_eq(raw_path, cwd) {
        file_fallback(raw_path)
    } else {
        let prefix = String::from_str(cwd).concat("/");
        proof {
            reveal_strlit("/");
            assert("/"@ =~= seq!['/']);
        }
        if starts_with_str(raw_path, prefix.as_str()) {
            let raw_len = raw_path.unicode_len();
            let cwd_len = cwd.unicode_len();
            assert(raw_len >= cwd_len + 1);
            let rel = strip_chars(raw_path, cwd_len + 1);
            if rel.as_str().is_empty() {
                file_fallback(raw_path)
            } else {
                rel
            }
        } else {
            file_fallback(raw_path)
        }
    }
}

/// The characters of `s` from position `from` on.
fn strip_chars(s: &str, from: usize) -> (r: String)
    requires
        from <= s@.len(),
    ensures
        r@ == s@.subrange(from as int, s@.len() as int),
{
    let n = s.unicode_len();
    let sub = s.substring_char(from, n);
    String::from_str(sub)
}

/// Metadata describing a filesystem-bridge tool call: a display path and an
/// optional line for deep-linking.
pub struct FsToolMetadata {
    pub display_path: String,
    pub location_path: String,
    pub line: Option<u32>,
}

/// Whether an invocation names the filesystem bridge's tool family.
pub open spec fn is_fs_tool(inv: McpInvocation) -> bool {
    inv.server@ == "acp_fs"@ && (inv.tool@ == "read_text_file"@ || inv.tool@
        == "write_text_file"@ || inv.tool@ == "edit_text_file"@)
}

/// The path argument of an invocation, when present.
pub open spec fn fs_tool_path(inv: McpInvocation) -> Option<Seq<char>> {
    match inv.arguments {
        Some(args) => match args.path {
            Some(p) => Some(p@),
            None => None,
        },
        None => None,
    }
}

/// The line argument of an invocation, truncated to 32 bits as the client
/// protocol carries it.
pub open spec fn fs_tool_line(inv: McpInvocation) -> Option<u32> {
    match inv.arguments {
        Some(args) => match args.line {
            Some(v) => Some(v as u32),
            None => None,
        },
        None => None,
    }
}

/// Extract filesystem-tool metadata from an invocation: only tools of the
/// filesystem bridge's family with a path argument yield any.
pub fn fs_tool_metadata(invocation: &McpInvocation, cwd: &str) -> (r: Option<FsToolMetadata>)
    ensures
        match r {
            Some(m) => {
                &&& is_fs_tool(*invocation)
                &&& fs_tool_path(*invocation) matches Some(p) && m.location_path@ == p
                    && m.display_path@ == display_fs_path_spec(cwd@, p)
                &&& m.line == fs_tool_line(*invocation)
            },
            None => !is_fs_tool(*invocation) || fs_tool_path(*invocation) is None,
        },
{
    if !str_eq(invocation.server.as_str(), "acp_fs") {
        return None;
    }
    let tool_ok = str_eq(invocation.tool.as_str(), "read_text_file") || str_eq(
        invocation.tool.as_str(),
        "write_text_file",
    ) || str_eq(invocation.tool.as_str(), "edit_text_file");
    if !tool_ok {
        return None;
    }
    match &invocation.arguments {
        Some(args) => match &args.path {
            Some(p) => {
                let line: Option<u32> = match args.line {
                    Some(v) => Some(#[verifier::truncate] (v as u32)),
                    None => None,
                };
                Some(
                    FsToolMetadata {
                        display_path: display_fs_path(cwd, p.as_str()),
                        location_path: p.clone(),
                        line,
                    },
                )
            },
            None => None,
        },
        None => None,
    }
}

/// Describe a remote tool call: a human-friendly title, and one location
/// when the invocation is a filesystem-bridge tool.
pub fn describe_mcp_tool(invocation: &McpInvocation, cwd: &str) -> (r: (
    String,
    Vec<ToolCallLocation>,
))
    ensures
        match fs_tool_metadata_spec(*invocation, cwd@) {
            Some((display, loc_path, line)) => {
                &&& r.0@ == invocation.server@ + "."@ + invocation.tool@ + " ("@ + display + ")"@
                &&& r.1@.len() == 1
                &&& r.1@[0].path@ == loc_path
                &&& r.1@[0].line == line
            },
            None => {
                &&& r.0@ == invocation.server@ + "."@ + invocation.tool@
                &&& r.1@.len() == 0
            },
        },
{
    let metadata = fs_tool_metadata(invocation, cwd);
    match metadata {
        Some(m) => {
            let title = invocation.server.clone().concat(".").concat(
                invocation.tool.as_str(),
            ).concat(" (").concat(m.display_path.as_str()).concat(")");
            let location = ToolCallLocation { path: m.location_path, line: m.line };
            let mut locations: Vec<ToolCallLocation> = Vec::new();
            locations.push(location);
            (title, locations)
        },
        None => {
            let title = invocation.server.clone().concat(".").concat(invocation.tool.as_str());
            (title, Vec::new())
        },
    }
}

/// The metadata `fs_tool_metadata` yields, as a spec value: the display
/// path, the location path, and the line.
pub open spec fn fs_tool_metadata_spec(inv: McpInvocation, cwd: Seq<char>) -> Option<
    (Seq<char>, Seq<char>, Option<u32>),
> {
    if is_fs_tool(inv) {
        match fs_tool_path(inv) {
            Some(p) => Some((display_fs_path_spec(cwd, p), p, fs_tool_line(inv))),
            None => None,
        }
    } else {
        None
    }
}

/// The title `describe_mcp_tool` yields: `server.tool`, with the display
/// path in parentheses for a filesystem-bridge tool.
pub open spec fn describe_title_spec(inv: McpInvocation, cwd: Seq<char>) -> Seq<char> {
    match fs_tool_metadata_spec(inv, cwd) {
        Some((display, _, _)) => inv.server@ + "."@ + inv.tool@ + " ("@ + display + ")"@,
        None => inv.server@ + "."@ + inv.tool@,
    }
}

/// The locations `describe_mcp_tool` yields, as (path, line) pairs.
pub open spec fn describe_locations_spec(inv: McpInvocation, cwd: Seq<char>) -> Seq<
    (Seq<char>, Option<u32>),
> {
    match fs_tool_metadata_spec(inv, cwd) {
        Some((_, p, line)) => seq![(p, line)],
        None => Seq::empty(),
    }
}

/// The location list of an update matches the described locations.
pub open spec fn locations_match(
    locs: Seq<ToolCallLocation>,
    described: Seq<(Seq<char>, Option<u32>)>,
) -> bool {
    locs.len() == described.len() && forall|i: int|
        0 <= i < locs.len() ==> (#[trigger] locs[i]).path@ == described[i].0 && locs[i].line
            == described[i].1
}

} // verus!
