//! The plugin's verbs, its VERSION document and its error document.
use vstd::prelude::*;

use crate::config::ConfigError;
use crate::json::{decimal, decimal_string, json_quote, member, member_text, object_text, quoted, render_object, texts};
use crate::plugin::ErrorKind;
use crate::text::{chars_of, find_char, first_at, same_text};

verus! {

/// The pieces of a text between semicolons, left to right; a text without
/// a semicolon is one piece.
pub open spec fn pieces(s: Seq<char>) -> Seq<Seq<char>>
    decreases s.len(),
{
    if s.len() == 0 {
        seq![Seq::empty()]
    } else {
        let r = pieces(s.drop_last());
        if s.last() == ';' {
            r.push(Seq::empty())
        } else {
            r.update(r.len() - 1, r.last().push(s.last()))
        }
    }
}

proof fn lemma_pieces_nonempty(s: Seq<char>)
    ensures
        pieces(s).len() >= 1,
    decreases s.len(),
{
    if s.len() > 0 {
        lemma_pieces_nonempty(s.drop_last());
    }
}

/// A piece `key=value`, split at its first `=`; a piece without `=` is none.
pub open spec fn pair_of(p: Seq<char>) -> Option<(Seq<char>, Seq<char>)> {
    if exists|i: int| first_at(p, '=', i) {
        let i = choose|i: int| first_at(p, '=', i);
        Some((p.take(i), p.skip(i + 1)))
    } else {
        None
    }
}

/// The attributes a sequence of pieces sets, a later key replacing an
/// earlier one.
pub open spec fn pairs_of(ps: Seq<Seq<char>>) -> Map<Seq<char>, Seq<char>>
    decreases ps.len(),
{
    if ps.len() == 0 {
        Map::empty()
    } else {
        let m = pairs_of(ps.drop_last());
        match pair_of(ps.last()) {
            Some(kv) => m.insert(kv.0, kv.1),
            None => m,
        }
    }
}

/// The attributes of an argument text: its `key=value` pieces between
/// semicolons.
pub open spec fn cni_args(s: Seq<char>) -> Map<Seq<char>, Seq<char>> {
    pairs_of(pieces(s))
}

/// Whether no key occurs twice in a list of attributes.
pub open spec fn keys_unique(v: Seq<(String, String)>) -> bool {
    forall|i: int, j: int| 0 <= i < j < v.len() ==> #[trigger] v[i].0@ != #[trigger] v[j].0@
}

/// A list of attributes with unique keys as a map.
pub open spec fn attr_map(v: Seq<(String, String)>) -> Map<Seq<char>, Seq<char>> {
    Map::new(
        |k: Seq<char>| exists|i: int| 0 <= i < v.len() && v[i].0@ == k,
        |k: Seq<char>| v[choose|i: int| 0 <= i < v.len() && v[i].0@ == k].1@,
    )
}

proof fn lemma_first_at_unique(p: Seq<char>, c: char, i: int, j: int)
    requires
        first_at(p, c, i),
        first_at(p, c, j),
    ensures
        i == j,
{
}

fn pair_from(piece: &str) -> (r: Option<(String, String)>)
    ensures
        match r {
            Some(kv) => pair_of(piece@) == Some((kv.0@, kv.1@)),
            None => pair_of(piece@) is None,
        },
{
    let cs = chars_of(piece);
    match find_char(&cs, '=') {
        Some(i) => {
            let n = cs.len();
            assert(first_at(piece@, '=', i as int));
            let k = piece.substring_char(0, i).to_string();
            let v = piece.substring_char(i + 1, n).to_string();
            proof {
                let c = choose|j: int| first_at(piece@, '=', j);
                lemma_first_at_unique(piece@, '=', c, i as int);
                assert(piece@.subrange(0, i as int) =~= piece@.take(i as int));
                assert(piece@.subrange(i + 1, n as int) =~= piece@.skip(i + 1));
            }
            Some((k, v))
        },
        None => {
            assert(!exists|i: int| first_at(piece@, '=', i)) by {
                if exists|i: int| first_at(piece@, '=', i) {
                    let i = choose|i: int| first_at(piece@, '=', i);
                    assert(cs@[i] == '=');
                }
            }
            None
        },
    }
}

fn key_position(v: &Vec<(String, String)>, k: &str) -> (r: Option<usize>)
    ensures
        r matches Some(i) ==> i < v@.len() && v@[i as int].0@ == k@,
        r is None ==> forall|j: int| 0 <= j < v@.len() ==> v@[j].0@ != k@,
{
    let mut i: usize = 0;
    while i < v.len()
        invariant
            i <= v@.len(),
            forall|j: int| 0 <= j < i ==> v@[j].0@ != k@,
        decreases v.len() - i,
    {
        if same_text(v[i].0.as_str(), k) {
            return Some(i);
        }
        i = i + 1;
    }
    None
}

fn put(v: &mut Vec<(String, String)>, k: String, val: String)
    requires
        keys_unique(old(v)@),
    ensures
        keys_unique(final(v)@),
        attr_map(final(v)@) == attr_map(old(v)@).insert(k@, val@),
{
    let ghost before = attr_map(v@);
    let ghost old_v = v@;
    let ghost idx: int;
    match key_position(v, k.as_str()) {
        Some(i) => {
            v.set(i, (k, val));
            proof {
                idx = i as int;
            }
        },
        None => {
            v.push((k, val));
            proof {
                idx = v@.len() - 1;
            }
        },
    }
    assert(v@[idx].0@ == k@ && v@[idx].1@ == val@);
    assert(keys_unique(v@)) by {
        assert forall|a: int, b: int| 0 <= a < b < v@.len() implies #[trigger] v@[a].0@ != #[trigger] v@[b].0@ by {
            if a != idx && b != idx {
                assert(old_v[a] == v@[a] && old_v[b] == v@[b]);
            } else if a == idx {
                assert(old_v[b] == v@[b]);
            } else {
                assert(old_v[a] == v@[a]);
            }
        }
    }
    assert forall|key: Seq<char>| #[trigger] attr_map(v@).contains_key(key) == before.insert(k@, val@).contains_key(key) by {
        if key == k@ {
            assert(v@[idx].0@ == key);
        } else {
            if before.contains_key(key) {
                let a = choose|a: int| 0 <= a < old_v.len() && old_v[a].0@ == key;
                assert(v@[a].0@ == key);
            }
            if attr_map(v@).contains_key(key) {
                let a = choose|a: int| 0 <= a < v@.len() && v@[a].0@ == key;
                assert(a != idx);
                assert(old_v[a].0@ == key);
            }
        }
    }
    assert forall|key: Seq<char>| #[trigger] attr_map(v@).contains_key(key) implies attr_map(v@)[key] == before.insert(k@, val@)[key] by {
        let a = choose|a: int| 0 <= a < v@.len() && v@[a].0@ == key;
        if key == k@ {
            assert(a == idx);
        } else {
            let a0 = choose|a: int| 0 <= a < old_v.len() && old_v[a].0@ == key;
            assert(a != idx);
            assert(old_v[a].0@ == key);
            assert(v@[a0].0@ == key);
            assert(a == a0);
        }
    }
    assert(attr_map(v@) =~= before.insert(k@, val@));
}

/// Reads the argument text: `key=value` pieces between semicolons, a later
/// key replacing an earlier one, pieces without `=` ignored.
pub fn parse_cni_args(args_str: &str) -> (r: Vec<(String, String)>)
    ensures
        keys_unique(r@),
        attr_map(r@) == cni_args(args_str@),
{
    let mut out: Vec<(String, String)> = Vec::new();
    assert(attr_map(out@) =~= Map::<Seq<char>, Seq<char>>::empty());
    let cs = chars_of(args_str);
    let n = cs.len();
    let mut start: usize = 0;
    let mut i: usize = 0;
    let ghost mut done: Seq<Seq<char>> = Seq::empty();
    assert(args_str@.take(0) =~= Seq::<char>::empty());
    assert(done.push(args_str@.subrange(0, 0)) =~= seq![Seq::<char>::empty()]);
    while i < n
        invariant
            n == args_str@.len(),
            cs@ == args_str@,
            start <= i <= n,
            keys_unique(out@),
            attr_map(out@) == pairs_of(done),
            pieces(args_str@.take(i as int)) == done.push(args_str@.subrange(start as int, i as int)),
        decreases n - i,
    {
        let ghost s1 = args_str@.take(i + 1);
        assert(s1.drop_last() =~= args_str@.take(i as int));
        assert(s1.last() == cs@[i as int]);
        if cs[i] == ';' {
            let piece = args_str.substring_char(start, i);
            match pair_from(piece) {
                Some(kv) => {
                    put(&mut out, kv.0, kv.1);
                },
                None => {},
            }
            proof {
                let cur = args_str@.subrange(start as int, i as int);
                let nd = done.push(cur);
                assert(nd.drop_last() =~= done);
                done = nd;
                assert(args_str@.subrange(i + 1, i + 1) =~= Seq::<char>::empty());
                assert(pieces(s1) =~= done.push(args_str@.subrange(i + 1, i + 1)));
            }
            start = i + 1;
        } else {
            proof {
                lemma_pieces_nonempty(args_str@.take(i as int));
                assert(args_str@.subrange(start as int, i + 1) =~= args_str@.subrange(start as int, i as int).push(cs@[i as int]));
                assert(pieces(s1) =~= done.push(args_str@.subrange(start as int, i + 1)));
            }
        }
        i = i + 1;
    }
    let last = args_str.substring_char(start, n);
    match pair_from(last) {
        Some(kv) => {
            put(&mut out, kv.0, kv.1);
        },
        None => {},
    }
    proof {
        assert(args_str@.take(n as int) =~= args_str@);
        let all = done.push(args_str@.subrange(start as int, n as int));
        assert(all.drop_last() =~= done);
    }
    out
}

/// The four verbs of the plugin.
#[derive(Debug, Clone, Copy, PartialEq, Eq, Structural)]
pub enum Verb {
    /// Attach the sandbox to the VLAN.
    Add,
    /// Detach it.
    Del,
    /// Verify the attachment.
    Check,
    /// Report the supported versions.
    Version,
}

/// The verb a command word names, if any.
pub open spec fn verb_of(s: Seq<char>) -> Option<Verb> {
    if s == "ADD"@ {
        Some(Verb::Add)
    } else if s == "DEL"@ {
        Some(Verb::Del)
    } else if s == "CHECK"@ {
        Some(Verb::Check)
    } else if s == "VERSION"@ {
        Some(Verb::Version)
    } else {
        None
    }
}

/// Reads a command word.
pub fn parse_verb(s: &str) -> (r: Option<Verb>)
    ensures
        r == verb_of(s@),
{
    if same_text(s, "ADD") {
        Some(Verb::Add)
    } else if same_text(s, "DEL") {
        Some(Verb::Del)
    } else if same_text(s, "CHECK") {
        Some(Verb::Check)
    } else if same_text(s, "VERSION") {
        Some(Verb::Version)
    } else {
        None
    }
}

/// The document the VERSION verb prints.
pub open spec fn version_text() -> Seq<char> {
    "{\"cniVersion\":\"1.0.0\",\"supportedVersions\":[\"0.3.0\",\"0.3.1\",\"0.4.0\",\"1.0.0\"]}"@
}

/// Writes the VERSION document: the static list of supported versions.
pub fn version_document() -> (r: String)
    ensures
        r@ == version_text(),
{
    String::from_str("{\"cniVersion\":\"1.0.0\",\"supportedVersions\":[\"0.3.0\",\"0.3.1\",\"0.4.0\",\"1.0.0\"]}")
}

/// The error document: version, numeric code, message, empty details.
pub open spec fn error_text(version: Seq<char>, code: u32, msg: Seq<char>) -> Seq<char> {
    object_text(
        seq![
            member_text("cniVersion"@, quoted(version)),
            member_text("code"@, decimal(code as nat)),
            member_text("msg"@, quoted(msg)),
            member_text("details"@, quoted(Seq::empty())),
        ],
    )
}

/// Writes the error document.
pub fn error_document(version: &str, code: u32, msg: &str) -> (r: String)
    ensures
        r@ == error_text(version@, code, msg@),
{
    let mut members: Vec<String> = Vec::new();
    let v = json_quote(version);
    members.push(member("cniVersion", v.as_str()));
    let c = decimal_string(code as u64);
    members.push(member("code", c.as_str()));
    let m = json_quote(msg);
    members.push(member("msg", m.as_str()));
    let d = json_quote("");
    proof {
        reveal_strlit("");
        assert(""@ =~= Seq::<char>::empty());
    }
    members.push(member("details", d.as_str()));
    assert(texts(members@) =~= seq![
        member_text("cniVersion"@, quoted(version@)),
        member_text("code"@, decimal(code as nat)),
        member_text("msg"@, quoted(msg@)),
        member_text("details"@, quoted(Seq::empty())),
    ]);
    render_object(&members)
}

/// The message reported for each error category.
pub open spec fn message_of(k: ErrorKind) -> Seq<char> {
    match k {
        ErrorKind::Validation => "invalid network configuration"@,
        ErrorKind::ResourceNotFound => "master interface or namespace not found"@,
        ErrorKind::PermissionDenied => "access denied by the access-control backend"@,
        ErrorKind::TransientToolFailure => "access-control backend unavailable"@,
        ErrorKind::SwitchFailed => "could not switch into the target namespace"@,
        ErrorKind::PartialProvisioningFailure => "provisioning failed; the created link was rolled back"@,
        ErrorKind::VerificationFailed => "interface does not match the configuration"@,
        ErrorKind::RestoreFailed => "could not restore the original namespace"@,
    }
}

impl ErrorKind {
    /// The message reported for this category.
    pub fn message(&self) -> (r: String)
        ensures
            r@ == message_of(*self),
    {
        let m = match self {
            ErrorKind::Validation => "invalid network configuration",
            ErrorKind::ResourceNotFound => "master interface or namespace not found",
            ErrorKind::PermissionDenied => "access denied by the access-control backend",
            ErrorKind::TransientToolFailure => "access-control backend unavailable",
            ErrorKind::SwitchFailed => "could not switch into the target namespace",
            ErrorKind::PartialProvisioningFailure => "provisioning failed; the created link was rolled back",
            ErrorKind::VerificationFailed => "interface does not match the configuration",
            ErrorKind::RestoreFailed => "could not restore the original namespace",
        };
        String::from_str(m)
    }
}

impl ConfigError {
    /// A refused configuration is a validation error.
    pub fn kind(&self) -> (r: ErrorKind)
        ensures
            r == ErrorKind::Validation,
    {
        ErrorKind::Validation
    }
}

/// The error document for a failure of the given category.
pub fn failure_document(version: &str, kind: ErrorKind) -> (r: String)
    ensures
        r@ == error_text(version@, crate::plugin::code_of(kind), message_of(kind)),
{
    let msg = kind.message();
    error_document(version, kind.code(), msg.as_str())
}

} // verus!
