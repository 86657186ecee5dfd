use vstd::prelude::*;
use vstd::string::StrSliceExecFns;
use vstd::string::StringExecFns;

verus! {

/// Name of the state file inside the cache home.
pub open spec fn file_name() -> Seq<char> {
    seq!['r', 'u', 'n', 't', 'i', 'm', 'e', '.', 'd', 'b']
}

/// Name of this tool's directory inside the platform cache directory.
pub open spec fn app_dir_name() -> Seq<char> {
    seq!['d', 'u', 'r', 'a']
}

/// `seg` appended to `base` as one more path component, with `/` between
/// them unless `base` is empty or already ends in one.
pub open spec fn path_join(base: Seq<char>, seg: Seq<char>) -> Seq<char> {
    if base.len() == 0 {
        seg
    } else if base.last() == '/' {
        base + seg
    } else {
        base + seq!['/'] + seg
    }
}

/// A present override counts only when it is not empty.
pub open spec fn override_set(cache_home_override: Option<Seq<char>>) -> bool {
    cache_home_override is Some && cache_home_override->0.len() > 0
}

/// The directory that holds the state file: the override when it is set,
/// else the tool's directory under the platform cache directory, else none.
pub open spec fn cache_home(
    cache_home_override: Option<Seq<char>>,
    platform_cache: Option<Seq<char>>,
) -> Option<Seq<char>> {
    if override_set(cache_home_override) {
        Some(cache_home_override->0)
    } else if platform_cache is Some {
        Some(path_join(platform_cache->0, app_dir_name()))
    } else {
        None
    }
}

/// Where the state file lives for the given override and platform cache
/// directory.
pub open spec fn state_path(
    cache_home_override: Option<Seq<char>>,
    platform_cache: Option<Seq<char>>,
) -> Option<Seq<char>> {
    match cache_home(cache_home_override, platform_cache) {
        Some(home) => Some(path_join(home, file_name())),
        None => None,
    }
}

pub open spec fn str_view(s: Option<&str>) -> Option<Seq<char>> {
    match s {
        Some(v) => Some(v@),
        None => None,
    }
}

pub open spec fn string_view(s: Option<String>) -> Option<Seq<char>> {
    match s {
        Some(v) => Some(v@),
        None => None,
    }
}

/// Appends `seg` to `base` as one more path component, with `/` as the
/// separator.
pub fn join_path(base: &str, seg: &str) -> (r: String)
    ensures
        r@ == path_join(base@, seg@),
{
    let n = base.unicode_len();
    let mut r = String::from_str(base);
    if n > 0 && base.get_char(n - 1) != '/' {
        r.append("/");
        proof {
            reveal_strlit("/");
        }
    }
    r.append(seg);
    r
}

/// Relies on dirs::cache_dir: the platform's cache directory, when it has
/// one. Its value depends on the environment, so nothing is stated of it.
#[verifier::external_body]
fn platform_cache_dir() -> (r: Option<String>) {
    dirs::cache_dir().map(|p| p.to_string_lossy().into_owned())
}

/// The decimal digit for `d < 10`.
pub open spec fn digit_char(d: nat) -> char {
    seq!['0', '1', '2', '3', '4', '5', '6', '7', '8', '9'][d as int]
}

/// `n` written in decimal, without leading zeros.
pub open spec fn decimal(n: nat) -> Seq<char>
    decreases n,
{
    if n < 10 {
        seq![digit_char(n)]
    } else {
        decimal(n / 10).push(digit_char(n % 10))
    }
}

/// The JSON value of a pid: a number when present, `null` when absent.
pub open spec fn pid_json(pid: Option<u32>) -> Seq<char> {
    match pid {
        Some(n) => decimal(n as nat),
        None => seq!['n', 'u', 'l', 'l'],
    }
}

/// The state file's contents: a JSON object with the single field `pid`.
pub open spec fn lock_json(pid: Option<u32>) -> Seq<char> {
    seq!['{', '"', 'p', 'i', 'd', '"', ':'] + pid_json(pid) + seq!['}']
}

proof fn lemma_decimal_injective(n: nat, m: nat)
    requires
        decimal(n) == decimal(m),
    ensures
        n == m,
    decreases n,
{
    let digits = seq!['0', '1', '2', '3', '4', '5', '6', '7', '8', '9'];
    lemma_decimal_nonempty(n / 10);
    lemma_decimal_nonempty(m / 10);
    assert(decimal(n).last() == digit_char(n % 10)) by {
        if n >= 10 {
            assert(decimal(n) == decimal(n / 10).push(digit_char(n % 10)));
        }
    };
    assert(decimal(m).last() == digit_char(m % 10)) by {
        if m >= 10 {
            assert(decimal(m) == decimal(m / 10).push(digit_char(m % 10)));
        }
    };
    assert(n % 10 == m % 10) by {
        assert(digits[(n % 10) as int] == digits[(m % 10) as int]);
    };
    if n >= 10 && m >= 10 {
        assert(decimal(n / 10) == decimal(n).drop_last());
        assert(decimal(m / 10) == decimal(m).drop_last());
        lemma_decimal_injective(n / 10, m / 10);
    } else if n >= 10 {
        assert(decimal(n).len() >= 2);
    } else if m >= 10 {
        assert(decimal(m).len() >= 2);
    }
}

proof fn lemma_decimal_nonempty(n: nat)
    ensures
        decimal(n).len() >= 1,
    decreases n,
{
    if n >= 10 {
        lemma_decimal_nonempty(n / 10);
    }
}

/// The state file's contents lose nothing: two states written as the same
/// contents hold the same pid, so reading back what was saved can give the
/// saved state.
pub proof fn lemma_json_lossless(a: RuntimeLock, b: RuntimeLock)
    requires
        lock_json(a.pid) == lock_json(b.pid),
    ensures
        a == b,
{
    let head = seq!['{', '"', 'p', 'i', 'd', '"', ':'];
    let tail = seq!['}'];
    let ja = pid_json(a.pid);
    let jb = pid_json(b.pid);
    assert(lock_json(a.pid) == head + ja + tail);
    assert(ja == lock_json(a.pid).subrange(7, lock_json(a.pid).len() - 1));
    assert(jb == lock_json(b.pid).subrange(7, lock_json(b.pid).len() - 1));
    match (a.pid, b.pid) {
        (Some(x), Some(y)) => {
            lemma_decimal_injective(x as nat, y as nat);
        },
        (Some(x), None) => {
            lemma_decimal_nonempty(x as nat);
            assert(ja.last() != 'l') by {
                lemma_decimal_last_digit(x as nat);
            };
            assert(jb.last() == 'l');
        },
        (None, Some(y)) => {
            lemma_decimal_nonempty(y as nat);
            assert(jb.last() != 'l') by {
                lemma_decimal_last_digit(y as nat);
            };
            assert(ja.last() == 'l');
        },
        (None, None) => {},
    }
}

/// Saving a state twice writes the same contents both times: what `save`
/// and `to_json` write depends on the state alone.
pub proof fn lemma_save_idempotent(a: RuntimeLock, b: RuntimeLock)
    requires
        a == b,
    ensures
        lock_json(a.pid) == lock_json(b.pid),
{
}

proof fn lemma_decimal_last_digit(n: nat)
    ensures
        decimal(n).len() >= 1,
        decimal(n).last() == digit_char(n % 10),
{
    lemma_decimal_nonempty(n);
    if n >= 10 {
        assert(decimal(n) == decimal(n / 10).push(digit_char(n % 10)));
    }
}

/// Relies on serde_json::to_string: an `Option<u32>` becomes `null` or the
/// number in decimal. Serializing it cannot fail.
#[verifier::external_body]
fn pid_to_json(pid: Option<u32>) -> (r: String)
    ensures
        r@ == pid_json(pid),
{
    serde_json::to_string(&pid).unwrap()
}

/// Whether a background watcher is believed to be running, and if so its
/// process id.
#[derive(Debug, PartialEq, Eq, Structural)]
pub struct RuntimeLock {
    pub pid: Option<u32>,
}

impl RuntimeLock {
    /// The state in which no watcher is running.
    pub fn empty() -> (r: Self)
        ensures
            r.pid is None,
    {
        RuntimeLock { pid: None }
    }

    /// The state file's path for a given override of the cache home and a
    /// given platform cache directory; `None` when neither gives a place.
    pub fn resolve_path(cache_home_override: Option<&str>, platform_cache: Option<&str>) -> (r:
        Option<String>)
        ensures
            string_view(r) == state_path(str_view(cache_home_override), str_view(platform_cache)),
    {
        let home = match cache_home_override {
            Some(h) if h.unicode_len() > 0 => String::from_str(h),
            _ => match platform_cache {
                Some(p) => {
                    proof {
                        reveal_strlit("dura");
                    }
                    join_path(p, "dura")
                },
                None => {
                    return None;
                },
            },
        };
        proof {
            reveal_strlit("runtime.db");
        }
        Some(join_path(home.as_str(), "runtime.db"))
    }
    /// The state file's default path. A non-empty override of the cache home
    /// wins over the platform cache directory; `None` when the override is
    /// unset or empty and the platform has no cache directory.
    pub fn default_path(cache_home_override: Option<&str>) -> (r: Option<String>)
        ensures
            override_set(str_view(cache_home_override)) ==> string_view(r) == state_path(
                str_view(cache_home_override),
                None,
            ),
            !override_set(str_view(cache_home_override)) ==> (r is Some ==> exists|d: Seq<char>|
                string_view(r) == #[trigger] state_path(None, Some(d))),
    {
        match cache_home_override {
            Some(h) if h.unicode_len() > 0 => Self::resolve_path(cache_home_override, None),
            _ => {
                let platform = platform_cache_dir();
                match platform {
                    Some(d) => {
                        let r = Self::resolve_path(None, Some(d.as_str()));
                        assert(string_view(r) == state_path(None, Some(d@)));
                        r
                    },
                    None => Self::resolve_path(None, None),
                }
            },
        }
    }

    /// The state to use given what reading the state file gave: the state
    /// read, or the empty state when the file was missing or unreadable.
    pub fn load(read: Option<RuntimeLock>) -> (r: Self)
        ensures
            r == (match read {
                Some(l) => l,
                None => RuntimeLock { pid: None },
            }),
    {
        match read {
            Some(l) => l,
            None => Self::empty(),
        }
    }

    /// The state file's contents for this state.
    pub fn to_json(&self) -> (r: String)
        ensures
            r@ == lock_json(self.pid),
    {
        let head = "{\"pid\":";
        let tail = "}";
        proof {
            reveal_strlit("{\"pid\":");
            reveal_strlit("}");
        }
        let mut r = String::from_str(head);
        let v = pid_to_json(self.pid);
        r.append(v.as_str());
        r.append(tail);
        r
    }

    /// What saving this state writes: the default path for the given
    /// override, and the contents. `None` when no path can be resolved.
    pub fn save(&self, cache_home_override: Option<&str>) -> (r: Option<(String, String)>)
        ensures
            match r {
                Some((path, contents)) => contents@ == lock_json(self.pid) && (override_set(
                    str_view(cache_home_override),
                ) ==> path@ == state_path(str_view(cache_home_override), None)->0) && (
                !override_set(str_view(cache_home_override)) ==> exists|d: Seq<char>|
                    Some(path@) == #[trigger] state_path(None, Some(d))),
                None => !override_set(str_view(cache_home_override)),
            },
    {
        match Self::default_path(cache_home_override) {
            Some(path) => Some((path, self.to_json())),
            None => None,
        }
    }
}

} // verus!
