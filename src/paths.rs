use vstd::prelude::*;

verus! {

/// `name` inside directory `dir`, with one separator between them.
pub open spec fn joined(dir: Seq<char>, name: Seq<char>) -> Seq<char> {
    if dir.len() == 0 {
        name
    } else if dir.last() == '/' {
        dir + name
    } else {
        dir + seq!['/'] + name
    }
}

/// Joins a directory and an entry name, as a path.
pub fn join(dir: &str, name: &str) -> (r: String)
    ensures
        r@ == joined(dir@, name@),
{
    let n = dir.unicode_len();
    if n == 0 {
        return String::from_str(name);
    }
    let mut s = String::from_str(dir);
    if dir.get_char(n - 1) != '/' {
        s.append("/");
        proof {
            reveal_strlit("/");
            assert("/"@ == seq!['/']);
        }
    }
    s.append(name);
    proof {
        assert(dir@.last() == dir@[n - 1]);
    }
    s
}

pub fn db_path(data_dir: &str) -> (r: String)
    ensures
        r@ == joined(data_dir@, "syspulse.db"@),
{
    join(data_dir, "syspulse.db")
}

pub fn logs_dir(data_dir: &str) -> (r: String)
    ensures
        r@ == joined(data_dir@, "logs"@),
{
    join(data_dir, "logs")
}

pub fn daemon_log_dir(data_dir: &str, name: &str) -> (r: String)
    ensures
        r@ == joined(joined(data_dir@, "logs"@), name@),
{
    let logs = logs_dir(data_dir);
    join(logs.as_str(), name)
}

/// The manager's Unix domain socket.
pub fn socket_path(data_dir: &str) -> (r: String)
    ensures
        r@ == joined(data_dir@, "syspulse.sock"@),
{
    join(data_dir, "syspulse.sock")
}

pub fn pid_path(data_dir: &str) -> (r: String)
    ensures
        r@ == joined(data_dir@, "syspulse.pid"@),
{
    join(data_dir, "syspulse.pid")
}

} // verus!
