//! Core logic of a manager for disposable, browser-accessible desktop
//! containers: the lifecycle task queue and its worker's decisions, the
//! wire codec for queue payloads and notifications, and the per-connection
//! console session state machine.

pub mod api;
pub mod codec;
pub mod console;
pub mod containers;
pub mod jobs;
pub mod jwt;
pub mod text;
pub mod users;
pub mod worker;

use vstd::prelude::*;

use crate::text::{push_char, push_str, str_to_chars};

verus! {

/// Process-wide settings, loaded from the environment by the surrounding
/// program.
#[derive(Clone)]
pub struct Config {
    pub bind_addr: String,
    pub database_url: String,
    pub redis_url: String,
    pub jwt_secret: String,
    pub docker_network: String,
    /// Host used for the port-in-use check.
    pub host_for_port_check: String,
    /// Image name prefix of the desktop containers.
    pub docker_image_name: String,
}

/// Whether `p` is a prefix of `s`.
pub fn str_starts_with(s: &str, p: &str) -> (r: bool)
    ensures
        r == p@.is_prefix_of(s@),
{
    let n = p.unicode_len();
    if s.unicode_len() < n {
        proof {
            assert(!p@.is_prefix_of(s@));
        }
        return false;
    }
    let mut k: usize = 0;
    while k < n
        invariant
            n == p@.len(),
            n <= s@.len(),
            k <= n,
            forall|t: int| 0 <= t < k ==> s@[t] == p@[t],
        decreases n - k,
    {
        if s.get_char(k) != p.get_char(k) {
            proof {
                assert(s@.subrange(0, n as int)[k as int] == s@[k as int]);
                assert(!p@.is_prefix_of(s@));
            }
            return false;
        }
        k = k + 1;
    }
    proof {
        assert(s@.subrange(0, n as int) =~= p@);
    }
    true
}

/// Where the store's file lives, read from a `sqlite:` url: the absolute
/// path of the database file, or nothing for `:memory:` and other
/// non-file urls. The three url shapes are tried in order, and a shape
/// whose remainder is empty or `:memory:` falls through to the next, as
/// `sqlite:///x` also matches `sqlite://` with remainder `/x`.
pub open spec fn sqlite_path_of(url: Seq<char>) -> Option<Seq<char>> {
    let r3 = url.skip(10);
    let r2 = url.skip(9);
    let r1 = url.skip(7);
    if "sqlite:///"@.is_prefix_of(url) && r3.len() > 0 && r3 != ":memory:"@ {
        Some("/"@ + r3)
    } else if "sqlite://"@.is_prefix_of(url) && r2.len() > 0 && r2 != ":memory:"@ {
        Some(r2)
    } else if "sqlite:"@.is_prefix_of(url) && r1.len() > 0 && r1 != ":memory:"@ {
        if r1[0] == '/' {
            Some(r1)
        } else {
            Some("/"@ + r1)
        }
    } else {
        None
    }
}

/// Returns the absolute path of the database file a `sqlite:` url names,
/// as `sqlite_path_of` reads it.
pub fn sqlite_absolute_path(database_url: &str) -> (r: Option<String>)
    ensures
        match r {
            Some(p) => sqlite_path_of(database_url@) == Some(p@),
            None => sqlite_path_of(database_url@) is None,
        },
{
    proof {
        reveal_strlit("sqlite:///");
        reveal_strlit("sqlite://");
        reveal_strlit("sqlite:");
        reveal_strlit(":memory:");
        reveal_strlit("/");
    }
    let v = str_to_chars(database_url);
    let n = v.len();
    let mem = String::from_str(":memory:");
    if str_starts_with(database_url, "sqlite:///") {
        let rest = tail_string(&v, 10);
        if rest.as_str().unicode_len() > 0 && !(rest == mem) {
            let mut out = String::new();
            push_str("/", &mut out);
            push_str(rest.as_str(), &mut out);
            proof {
                assert(out@ =~= "/"@ + database_url@.skip(10));
            }
            return Some(out);
        }
    }
    if str_starts_with(database_url, "sqlite://") {
        let rest = tail_string(&v, 9);
        if rest.as_str().unicode_len() > 0 && !(rest == mem) {
            return Some(rest);
        }
    }
    if str_starts_with(database_url, "sqlite:") {
        let rest = tail_string(&v, 7);
        if rest.as_str().unicode_len() > 0 && !(rest == mem) {
            if rest.as_str().get_char(0) == '/' {
                return Some(rest);
            }
            let mut out = String::new();
            push_str("/", &mut out);
            push_str(rest.as_str(), &mut out);
            proof {
                assert(out@ =~= "/"@ + database_url@.skip(7));
            }
            return Some(out);
        }
    }
    None
}

/// The characters of `v` from position `i` on, as a string.
fn tail_string(v: &Vec<char>, i: usize) -> (r: String)
    ensures
        r@ == if i <= v@.len() {
            v@.skip(i as int)
        } else {
            Seq::<char>::empty()
        },
{
    let mut out = String::new();
    let mut k: usize = i;
    while k < v.len()
        invariant
            i <= k,
            k <= v@.len() || k == i,
            out@ == if i <= v@.len() {
                v@.subrange(i as int, k as int)
            } else {
                Seq::<char>::empty()
            },
        decreases v@.len() - k,
    {
        push_char(&mut out, v[k]);
        k = k + 1;
        proof {
            assert(out@ =~= v@.subrange(i as int, k as int));
        }
    }
    proof {
        if i <= v@.len() {
            assert(v@.subrange(i as int, v@.len() as int) =~= v@.skip(i as int));
        }
    }
    out
}

} // verus!
