//! What the container listing and the console metadata show: plain
//! summaries computed from what an inspection of a container reports.

use vstd::prelude::*;

use crate::text::{prefix_of, push_str, str_prefix, trim_slashes};

verus! {

/// One desktop container, as listed.
pub struct ContainerInfo {
    pub id: String,
    pub name: String,
    pub status: String,
    pub command: Option<Vec<String>>,
    pub short_id: String,
    pub image_tag: String,
    /// Service name (`vnc`, `novnc`, `ssh`) to bound host port.
    pub ports: Vec<(String, String)>,
    pub privileged: bool,
    pub nvdocker: bool,
    pub size_raw: i64,
    pub size_fs: i64,
}

/// Console metadata for one container.
pub struct ConsoleMeta {
    pub id: String,
    pub container_name: String,
    pub image: String,
    pub short_id: String,
    pub command: Option<String>,
    pub action: String,
}

// ---------------------------------------------------------------------------
// Port bindings to service names.
// ---------------------------------------------------------------------------

/// The first bound host port of the last entry for `port`, if any entry
/// for it has a binding.
pub open spec fn last_binding(
    entries: Seq<(Seq<char>, Seq<Seq<char>>)>,
    port: Seq<char>,
) -> Option<Seq<char>>
    decreases entries.len(),
{
    if entries.len() == 0 {
        None
    } else {
        let e = entries.last();
        if e.0 == port && e.1.len() > 0 {
            Some(e.1[0])
        } else {
            last_binding(entries.drop_last(), port)
        }
    }
}

/// The service map a set of port bindings yields: `vnc`, `novnc` and
/// `ssh`, in that order, each present exactly when its container port
/// (5901, 6901, 22, all tcp) is bound.
pub open spec fn ports_view(entries: Seq<(Seq<char>, Seq<Seq<char>>)>) -> Seq<
    (Seq<char>, Seq<char>),
> {
    (match last_binding(entries, "5901/tcp"@) {
        Some(h) => seq![("vnc"@, h)],
        None => Seq::empty(),
    }) + (match last_binding(entries, "6901/tcp"@) {
        Some(h) => seq![("novnc"@, h)],
        None => Seq::empty(),
    }) + (match last_binding(entries, "22/tcp"@) {
        Some(h) => seq![("ssh"@, h)],
        None => Seq::empty(),
    })
}

/// Maps port bindings (container port to bound host ports) to the service
/// map `ports_view` describes.
pub fn parse_ports(port_bindings: &Vec<(String, Vec<String>)>) -> (r: Vec<(String, String)>)
    ensures
        r.deep_view() == ports_view(port_bindings.deep_view()),
{
    proof {
        reveal_strlit("5901/tcp");
        reveal_strlit("6901/tcp");
        reveal_strlit("22/tcp");
    }
    let mut vnc: Option<String> = None;
    let mut novnc: Option<String> = None;
    let mut ssh: Option<String> = None;
    let vnc_key = String::from_str("5901/tcp");
    let novnc_key = String::from_str("6901/tcp");
    let ssh_key = String::from_str("22/tcp");
    let n = port_bindings.len();
    let mut i: usize = 0;
    while i < n
        invariant
            n == port_bindings@.len(),
            i <= n,
            vnc_key@ == "5901/tcp"@,
            novnc_key@ == "6901/tcp"@,
            ssh_key@ == "22/tcp"@,
            crate::console::opt_view(vnc) == last_binding(
                port_bindings.deep_view().take(i as int),
                "5901/tcp"@,
            ),
            crate::console::opt_view(novnc) == last_binding(
                port_bindings.deep_view().take(i as int),
                "6901/tcp"@,
            ),
            crate::console::opt_view(ssh) == last_binding(
                port_bindings.deep_view().take(i as int),
                "22/tcp"@,
            ),
        decreases n - i,
    {
        let entry = &port_bindings[i];
        proof {
            let all = port_bindings.deep_view();
            let pre = all.take(i as int);
            let post = all.take(i + 1 as int);
            assert(post.drop_last() =~= pre);
            assert(post.last() == all[i as int]);
        }
        if entry.1.len() > 0 {
            if entry.0 == vnc_key {
                vnc = Some(entry.1[0].clone());
            }
            if entry.0 == novnc_key {
                novnc = Some(entry.1[0].clone());
            }
            if entry.0 == ssh_key {
                ssh = Some(entry.1[0].clone());
            }
        }
        i = i + 1;
    }
    proof {
        assert(port_bindings.deep_view().take(n as int) =~= port_bindings.deep_view());
    }
    let mut out: Vec<(String, String)> = Vec::new();
    match vnc {
        Some(h) => {
            out.push((String::from_str("vnc"), h));
        },
        None => {},
    }
    match novnc {
        Some(h) => {
            out.push((String::from_str("novnc"), h));
        },
        None => {},
    }
    match ssh {
        Some(h) => {
            out.push((String::from_str("ssh"), h));
        },
        None => {},
    }
    proof {
        assert(out.deep_view() =~= ports_view(port_bindings.deep_view()));
    }
    out
}

// ---------------------------------------------------------------------------
// Summaries.
// ---------------------------------------------------------------------------

/// What an inspection of one container reports, as plain values.
pub struct InspectFacts {
    /// The container's id, from the listing.
    pub id: String,
    /// The image named by the listing, used when the inspection names
    /// none.
    pub summary_image: String,
    /// The image the inspection's configuration names.
    pub config_image: Option<String>,
    /// The container's name, with its leading slash.
    pub name: Option<String>,
    /// The container's state, already written as lower-case text.
    pub status: Option<String>,
    /// The container's command.
    pub command: Option<Vec<String>>,
    /// Container port to bound host ports.
    pub port_bindings: Vec<(String, Vec<String>)>,
    pub privileged: Option<bool>,
    /// The drivers of the container's device requests.
    pub device_drivers: Vec<String>,
    pub size_rw: Option<i64>,
    pub size_root_fs: Option<i64>,
}

/// The image tag the facts show: the configured image, or the listing's.
pub open spec fn image_tag_of(config_image: Option<Seq<char>>, summary_image: Seq<char>) -> Seq<
    char,
> {
    match config_image {
        Some(t) => t,
        None => summary_image,
    }
}

/// Whether any device request uses the `nvidia` driver.
pub open spec fn uses_nvidia(drivers: Seq<Seq<char>>) -> bool {
    exists|i: int| 0 <= i < drivers.len() && drivers[i] == "nvidia"@
}

/// Builds the listing entry for one container, or nothing when its image
/// tag does not carry the desktop prefix. Every shown field is computed
/// from the facts: the name with leading slashes removed (empty when
/// unnamed), the status (`unknown` when unreported), the service port
/// map, the twelve-character short id, and the sizes (zero when
/// unreported).
#[verifier::rlimit(30)]
pub fn container_info(f: InspectFacts, prefix: &str) -> (r: Option<ContainerInfo>)
    ensures
        ({
            let tag = image_tag_of(crate::console::opt_view(f.config_image), f.summary_image@);
            &&& !prefix@.is_prefix_of(tag) ==> (r is None)
            &&& prefix@.is_prefix_of(tag) ==> (r matches Some(c) && c.id@ == f.id@ && c.name@ == (
            match crate::console::opt_view(f.name) {
                Some(n) => trim_slashes(n),
                None => Seq::<char>::empty(),
            }) && c.status@ == (match crate::console::opt_view(f.status) {
                Some(st) => st,
                None => "unknown"@,
            }) && c.command == f.command && c.short_id@ == prefix_of(f.id@, 12) && c.image_tag@
                == tag && c.ports.deep_view() == ports_view(f.port_bindings.deep_view())
                && c.privileged == (f.privileged is Some && f.privileged->0) && c.nvdocker
                == uses_nvidia(f.device_drivers.deep_view()) && c.size_raw == (
            match f.size_rw {
                Some(s) => s,
                None => 0,
            }) && c.size_fs == (match f.size_root_fs {
                Some(s) => s,
                None => 0,
            }))
        }),
{
    let image_tag = match f.config_image {
        Some(t) => t,
        None => f.summary_image,
    };
    if !crate::str_starts_with(image_tag.as_str(), prefix) {
        return None;
    }
    let name = match f.name {
        Some(n) => trim_slashes_owned(n),
        None => String::new(),
    };
    let status = match f.status {
        Some(st) => st,
        None => String::from_str("unknown"),
    };
    let ports = parse_ports(&f.port_bindings);
    let short_id = str_prefix(f.id.as_str(), 12);
    let privileged = match f.privileged {
        Some(p) => p,
        None => false,
    };
    let nvdocker = any_nvidia(&f.device_drivers);
    let size_raw = match f.size_rw {
        Some(s) => s,
        None => 0,
    };
    let size_fs = match f.size_root_fs {
        Some(s) => s,
        None => 0,
    };
    Some(
        ContainerInfo {
            id: f.id,
            name,
            status,
            command: f.command,
            short_id,
            image_tag,
            ports,
            privileged,
            nvdocker,
            size_raw,
            size_fs,
        },
    )
}

/// Removes the leading slashes of an owned name.
fn trim_slashes_owned(n: String) -> (r: String)
    ensures
        r@ == trim_slashes(n@),
{
    crate::text::trim_leading_slashes(n.as_str())
}

/// Whether any driver is `nvidia`.
fn any_nvidia(drivers: &Vec<String>) -> (r: bool)
    ensures
        r == uses_nvidia(drivers.deep_view()),
{
    proof {
        reveal_strlit("nvidia");
    }
    let key = String::from_str("nvidia");
    let n = drivers.len();
    let mut i: usize = 0;
    while i < n
        invariant
            n == drivers@.len(),
            key@ == "nvidia"@,
            i <= n,
            forall|t: int| 0 <= t < i ==> drivers.deep_view()[t] != "nvidia"@,
        decreases n - i,
    {
        proof {
            assert(drivers.deep_view()[i as int] == drivers@[i as int].deep_view());
        }
        if drivers[i] == key {
            proof {
                assert(drivers.deep_view()[i as int] == "nvidia"@);
            }
            return true;
        }
        i = i + 1;
    }
    false
}

/// The words of a command joined with single spaces.
pub open spec fn joined(parts: Seq<Seq<char>>) -> Seq<char>
    decreases parts.len(),
{
    if parts.len() == 0 {
        Seq::empty()
    } else if parts.len() == 1 {
        parts[0]
    } else {
        parts[0] + " "@ + joined(parts.skip(1))
    }
}

/// Joins the words of a command with single spaces.
pub fn join_words(parts: &Vec<String>) -> (r: String)
    ensures
        r@ == joined(parts.deep_view()),
{
    proof {
        reveal_strlit(" ");
    }
    let n = parts.len();
    if n == 0 {
        return String::new();
    }
    let mut out = String::new();
    push_str(parts[0].as_str(), &mut out);
    let mut i: usize = 1;
    while i < n
        invariant
            n == parts@.len(),
            1 <= i <= n,
            out@ == joined(parts.deep_view().take(i as int)),
        decreases n - i,
    {
        push_str(" ", &mut out);
        push_str(parts[i].as_str(), &mut out);
        proof {
            lemma_joined_push(parts.deep_view().take(i as int), parts.deep_view()[i as int]);
            assert(parts.deep_view().take(i + 1 as int) =~= parts.deep_view().take(i as int).push(
                parts.deep_view()[i as int],
            ));
            assert(out@ =~= joined(parts.deep_view().take(i + 1 as int)));
        }
        i = i + 1;
    }
    proof {
        assert(parts.deep_view().take(n as int) =~= parts.deep_view());
        assert(parts.deep_view().take(1int) =~= seq![parts.deep_view()[0]]);
    }
    out
}

proof fn lemma_joined_push(parts: Seq<Seq<char>>, next: Seq<char>)
    requires
        parts.len() >= 1,
    ensures
        joined(parts.push(next)) == joined(parts) + " "@ + next,
    decreases parts.len(),
{
    let p = parts.push(next);
    if parts.len() == 1 {
        assert(p.skip(1) =~= seq![next]);
        assert(joined(p.skip(1)) == next);
        assert(p[0] == parts[0]);
        assert(joined(p) == parts[0] + " "@ + next);
        assert(joined(parts) == parts[0]);
    } else {
        assert(p[0] == parts[0]);
        assert(p.skip(1) =~= parts.skip(1).push(next));
        lemma_joined_push(parts.skip(1), next);
        assert(joined(parts) + " "@ + next =~= parts[0] + " "@ + (joined(parts.skip(1)) + " "@
            + next));
    }
}

/// Builds the console metadata for one container: the display name (the
/// inspected name with leading slashes removed, or the id when unnamed),
/// the configured image (empty when none), the twelve-character short id
/// (from the inspected id, or the given one), and the command's words
/// joined with spaces.
pub fn console_meta(
    id: &str,
    action: &str,
    inspect_name: Option<String>,
    inspect_image: Option<String>,
    inspect_id: Option<String>,
    command: Option<Vec<String>>,
) -> (r: ConsoleMeta)
    ensures
        r.id@ == id@,
        r.action@ == action@,
        r.container_name@ == (match crate::console::opt_view(inspect_name) {
            Some(n) => trim_slashes(n),
            None => id@,
        }),
        r.image@ == (match crate::console::opt_view(inspect_image) {
            Some(im) => im,
            None => Seq::<char>::empty(),
        }),
        r.short_id@ == (match crate::console::opt_view(inspect_id) {
            Some(full) => prefix_of(full, 12),
            None => prefix_of(id@, 12),
        }),
        match command {
            Some(parts) => r.command matches Some(c) && c@ == joined(parts.deep_view()),
            None => r.command is None,
        },
{
    let container_name = match inspect_name {
        Some(n) => crate::text::trim_leading_slashes(n.as_str()),
        None => id.to_owned(),
    };
    let image = match inspect_image {
        Some(im) => im,
        None => String::new(),
    };
    let short_id = match inspect_id {
        Some(full) => str_prefix(full.as_str(), 12),
        None => str_prefix(id, 12),
    };
    let cmd = match command {
        Some(parts) => Some(join_words(&parts)),
        None => None,
    };
    ConsoleMeta {
        id: id.to_owned(),
        container_name,
        image,
        short_id,
        command: cmd,
        action: action.to_owned(),
    }
}

// ---------------------------------------------------------------------------
// Image tags.
// ---------------------------------------------------------------------------

/// Whether `needle` occurs in `s` starting at `i`.
pub open spec fn occurs_at(s: Seq<char>, needle: Seq<char>, i: int) -> bool {
    0 <= i && i + needle.len() <= s.len() && s.subrange(i, i + needle.len()) == needle
}

/// Whether `needle` occurs anywhere in `s`.
pub open spec fn contains_seq(s: Seq<char>, needle: Seq<char>) -> bool {
    exists|i: int| occurs_at(s, needle, i)
}

/// Whether `needle` occurs anywhere in `s`.
pub fn str_contains(s: &str, needle: &str) -> (r: bool)
    ensures
        r == contains_seq(s@, needle@),
{
    let n = s.unicode_len();
    let m = needle.unicode_len();
    if m > n {
        proof {
            assert forall|i: int| !occurs_at(s@, needle@, i) by {}
        }
        return false;
    }
    let mut i: usize = 0;
    while i <= n - m
        invariant
            n == s@.len(),
            m == needle@.len(),
            m <= n,
            i <= n - m + 1,
            forall|t: int| 0 <= t < i ==> !occurs_at(s@, needle@, t),
        decreases n - i,
    {
        let mut k: usize = 0;
        let mut hit = true;
        while k < m
            invariant
                n == s@.len(),
                m == needle@.len(),
                i + m <= n,
                k <= m,
                hit == (forall|t: int| 0 <= t < k ==> s@[i + t] == needle@[t]),
            decreases m - k,
        {
            let idx: usize = i + k;
            let same = s.get_char(idx) == needle.get_char(k);
            proof {
                if !same {
                    assert(s@[i + k] != needle@[k as int]);
                }
                if hit && same {
                    assert(forall|t: int| 0 <= t < k + 1 ==> s@[i + t] == needle@[t]);
                }
            }
            hit = hit && same;
            k = k + 1;
        }
        if hit {
            proof {
                assert(s@.subrange(i as int, i + m) =~= needle@);
                assert(occurs_at(s@, needle@, i as int));
            }
            return true;
        }
        proof {
            if occurs_at(s@, needle@, i as int) {
                let w = choose|t: int| 0 <= t < m && s@[i + t] != needle@[t];
                assert(s@.subrange(i as int, i + m)[w] == s@[i + w]);
                assert(false);
            }
        }
        i = i + 1;
    }
    proof {
        assert forall|t: int| !occurs_at(s@, needle@, t) by {
            if occurs_at(s@, needle@, t) {
                assert(0 <= t < i);
            }
        }
    }
    false
}

/// The tags that mention the image name, in order: the listing shows an
/// image exactly when this selection is non-empty, under its first
/// matching tag.
pub open spec fn tags_matching(tags: Seq<Seq<char>>, name: Seq<char>) -> Seq<Seq<char>>
    decreases tags.len(),
{
    if tags.len() == 0 {
        Seq::empty()
    } else {
        let rest = tags_matching(tags.drop_last(), name);
        if contains_seq(tags.last(), name) {
            rest.push(tags.last())
        } else {
            rest
        }
    }
}

/// Selects the tags that mention the image name, keeping their order.
pub fn matching_tags(tags: &Vec<String>, name: &str) -> (r: Vec<String>)
    ensures
        r.deep_view() == tags_matching(tags.deep_view(), name@),
{
    let mut out: Vec<String> = Vec::new();
    let n = tags.len();
    let mut i: usize = 0;
    while i < n
        invariant
            n == tags@.len(),
            i <= n,
            out.deep_view() == tags_matching(tags.deep_view().take(i as int), name@),
        decreases n - i,
    {
        proof {
            let all = tags.deep_view();
            assert(all.take(i + 1 as int).drop_last() =~= all.take(i as int));
            assert(all.take(i + 1 as int).last() == all[i as int]);
            assert(all[i as int] == tags@[i as int].deep_view());
        }
        if str_contains(tags[i].as_str(), name) {
            out.push(tags[i].clone());
        }
        i = i + 1;
    }
    proof {
        assert(tags.deep_view().take(n as int) =~= tags.deep_view());
    }
    out
}

/// Whether any binding maps to the given host port, written in decimal.
pub fn port_in_bindings(ports: &Vec<(String, String)>, host_port: &str) -> (r: bool)
    ensures
        r == (exists|i: int|
            0 <= i < ports.deep_view().len() && ports.deep_view()[i].1 == host_port@),
{
    let hp = host_port.to_owned();
    let n = ports.len();
    let mut i: usize = 0;
    while i < n
        invariant
            n == ports@.len(),
            hp@ == host_port@,
            i <= n,
            forall|t: int| 0 <= t < i ==> ports.deep_view()[t].1 != host_port@,
        decreases n - i,
    {
        proof {
            assert(ports.deep_view()[i as int] == ports@[i as int].deep_view());
        }
        if ports[i].1 == hp {
            proof {
                assert(ports.deep_view()[i as int].1 == host_port@);
            }
            return true;
        }
        i = i + 1;
    }
    false
}

} // verus!
