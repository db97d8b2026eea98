use vstd::prelude::*;

use crate::daemon::LogConfig;
use crate::paths::{join, joined};
use crate::text::concat3;

verus! {

/// Where a daemon's output is kept: `<data_dir>/logs/<name>/{stdout,stderr}.log`.
pub struct LogManager {
    data_dir: String,
}

impl LogManager {
    pub closed spec fn data_dir_spec(&self) -> Seq<char> {
        self.data_dir@
    }

    pub open spec fn log_dir_spec(&self, name: Seq<char>) -> Seq<char> {
        joined(joined(self.data_dir_spec(), "logs"@), name)
    }

    pub open spec fn log_file_spec(&self, name: Seq<char>, stderr: bool) -> Seq<char> {
        joined(
            self.log_dir_spec(name),
            if stderr {
                "stderr.log"@
            } else {
                "stdout.log"@
            },
        )
    }

    pub fn new(data_dir: &str) -> (r: LogManager)
        ensures
            r.data_dir_spec() == data_dir@,
    {
        LogManager { data_dir: String::from_str(data_dir) }
    }

    pub fn log_dir(&self, daemon_name: &str) -> (r: String)
        ensures
            r@ == self.log_dir_spec(daemon_name@),
    {
        let logs = join(self.data_dir.as_str(), "logs");
        join(logs.as_str(), daemon_name)
    }

    /// The stdout or stderr log of a daemon.
    pub fn log_file(&self, daemon_name: &str, stderr: bool) -> (r: String)
        ensures
            r@ == self.log_file_spec(daemon_name@, stderr),
    {
        let dir = self.log_dir(daemon_name);
        if stderr {
            join(dir.as_str(), "stderr.log")
        } else {
            join(dir.as_str(), "stdout.log")
        }
    }

    /// The (stdout, stderr) log files a spawn appends to.
    pub fn log_paths(&self, daemon_name: &str) -> (r: (String, String))
        ensures
            r.0@ == self.log_file_spec(daemon_name@, false),
            r.1@ == self.log_file_spec(daemon_name@, true),
    {
        (self.log_file(daemon_name, false), self.log_file(daemon_name, true))
    }
}

/// The last `n` of `lines` (all of them when there are fewer).
pub open spec fn last_lines(lines: Seq<String>, n: nat) -> Seq<String> {
    if n >= lines.len() {
        lines
    } else {
        lines.subrange(lines.len() - n, lines.len() as int)
    }
}

/// Keeps the last `n` lines of a log.
pub fn tail_lines(lines: Vec<String>, n: usize) -> (r: Vec<String>)
    ensures
        r@ == last_lines(lines@, n as nat),
{
    let len = lines.len();
    if n >= len {
        return lines;
    }
    let mut rest = lines;
    let tail = rest.split_off(len - n);
    tail
}

/// The name a log stream (`stdout` or `stderr`) takes when rotated at `stamp`.
pub fn rotated_file_name(base: &str, stamp: &str) -> (r: String)
    ensures
        r@ == base@ + "_"@ + stamp@ + ".log"@,
{
    let mut s = concat3(base, "_", stamp);
    s.append(".log");
    s
}

/// `file_name` is a rotated log of stream `base`: `<base>_<anything>.log`.
pub open spec fn rotated_of(file_name: Seq<char>, base: Seq<char>) -> bool {
    let p = base.len() + 1;
    &&& file_name.len() >= p + 4
    &&& file_name.subrange(0, base.len() as int) == base
    &&& file_name[base.len() as int] == '_'
    &&& file_name.subrange(file_name.len() - 4, file_name.len() as int) == ".log"@
}

fn chars_match(s: &str, from: usize, t: &str) -> (r: bool)
    requires
        from + t@.len() <= s@.len(),
    ensures
        r == (s@.subrange(from as int, from + t@.len()) == t@),
{
    let n = t.unicode_len();
    let m = s.unicode_len();
    let mut i: usize = 0;
    while i < n
        invariant
            n == t@.len(),
            m == s@.len(),
            from + n <= s@.len(),
            i <= n,
            s@.subrange(from as int, from + i) == t@.subrange(0, i as int),
        decreases n - i,
    {
        if s.get_char(from + i) != t.get_char(i) {
            proof {
                assert(s@.subrange(from as int, from + n)[i as int] == s@[from + i]);
            }
            return false;
        }
        proof {
            assert(s@.subrange(from as int, from + i + 1) =~= s@.subrange(from as int, from + i).push(
                s@[from + i],
            ));
            assert(t@.subrange(0, i + 1) =~= t@.subrange(0, i as int).push(t@[i as int]));
        }
        i = i + 1;
    }
    proof {
        assert(t@.subrange(0, n as int) =~= t@);
    }
    true
}

/// Whether `file_name` is a rotated log of stream `base`.
pub fn is_rotated_of(file_name: &str, base: &str) -> (r: bool)
    ensures
        r == rotated_of(file_name@, base@),
{
    proof {
        reveal_strlit(".log");
    }
    let len = file_name.unicode_len();
    let blen = base.unicode_len();
    if len < 5 || blen > len - 5 {
        return false;
    }
    if !chars_match(file_name, 0, base) {
        return false;
    }
    if file_name.get_char(blen) != '_' {
        return false;
    }
    chars_match(file_name, len - 4, ".log")
}

/// Whether a log of `size_bytes` must be rotated under `config`.
pub fn needs_rotation(size_bytes: u64, config: &LogConfig) -> (r: bool)
    ensures
        r == (size_bytes >= config.max_size_bytes),
{
    size_bytes >= config.max_size_bytes
}

/// Given a daemon's rotated logs, newest first, the ones to delete so that at
/// most `retain_count` remain.
pub fn prune_list(newest_first: Vec<String>, retain_count: u32) -> (r: Vec<String>)
    ensures
        r@ == (if retain_count as int >= newest_first@.len() {
            Seq::<String>::empty()
        } else {
            newest_first@.subrange(retain_count as int, newest_first@.len() as int)
        }),
{
    let keep = retain_count as usize;
    if keep >= newest_first.len() {
        return Vec::new();
    }
    let mut all = newest_first;
    let pruned = all.split_off(keep);
    pruned
}

} // verus!
