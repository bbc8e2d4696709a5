use vstd::prelude::*;
use crate::text::same_text;

verus! {

/// The names that no package may take, compared after lower-casing: files
/// with a special meaning to the package layout and the runtime's built-in
/// module names.
pub open spec fn banned_names() -> Seq<Seq<char>> {
    seq![
        "node_modules"@, "favicon.ico"@, "assert"@, "buffer"@, "child_process"@,
        "cluster"@, "console"@, "constants"@, "crypto"@, "dgram"@, "dns"@, "domain"@,
        "events"@, "fs"@, "http"@, "https"@, "module"@, "net"@, "os"@, "path"@,
        "punycode"@, "querystring"@, "readline"@, "repl"@, "stream"@, "string_decoder"@,
        "sys"@, "timers"@, "tls"@, "tty"@, "url"@, "util"@, "vm"@, "zlib"@, "freelist"@,
        "v8"@, "process"@, "inspector"@, "async_hooks"@, "http2"@, "perf_hooks"@,
        "trace_events"@, "worker_threads"@, "node:test"@, "worker_threads"@, "wasi"@,
        "diagnostics_channel"@,
    ]
}

/// What `str::to_lowercase` makes of a string (full Unicode case mapping).
pub uninterp spec fn lower_of(s: Seq<char>) -> Seq<char>;

/// Relies on `str::to_lowercase`: its result depends on the characters alone.
#[verifier::external_body]
pub(crate) fn lowercase(s: &str) -> (r: String)
    ensures
        r@ == lower_of(s@),
{
    s.to_lowercase()
}

fn banned_name_list() -> (r: [&'static str; 47])
    ensures
        forall|i: int| 0 <= i < 47 ==> (#[trigger] r@[i])@ == banned_names()[i],
{
    [
        "node_modules", "favicon.ico", "assert", "buffer", "child_process",
        "cluster", "console", "constants", "crypto", "dgram", "dns", "domain",
        "events", "fs", "http", "https", "module", "net", "os", "path",
        "punycode", "querystring", "readline", "repl", "stream", "string_decoder",
        "sys", "timers", "tls", "tty", "url", "util", "vm", "zlib", "freelist",
        "v8", "process", "inspector", "async_hooks", "http2", "perf_hooks",
        "trace_events", "worker_threads", "node:test", "worker_threads", "wasi",
        "diagnostics_channel",
    ]
}

/// Whether an already lower-cased name is one of the banned names.
pub fn is_listed(lowered: &str) -> (r: bool)
    ensures
        r == banned_names().contains(lowered@),
{
    let names = banned_name_list();
    let mut i: usize = 0;
    while i < 47
        invariant
            i <= 47,
            forall|j: int| 0 <= j < 47 ==> (#[trigger] names@[j])@ == banned_names()[j],
            forall|j: int| 0 <= j < i ==> banned_names()[j] != lowered@,
        decreases 47 - i,
    {
        if same_text(lowered, names[i]) {
            assert(banned_names()[i as int] == lowered@);
            return true;
        }
        i = i + 1;
    }
    assert(banned_names().len() == 47);
    false
}

/// Whether `name`, compared without regard to case, is a banned name.
#[allow(clippy::ptr_arg)]
pub fn is_banned(name: &String) -> (r: bool)
    ensures
        r == banned_names().contains(lower_of(name@)),
{
    let lowered = lowercase(name.as_str());
    is_listed(lowered.as_str())
}

} // verus!
