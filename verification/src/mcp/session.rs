//! The table of open document sessions, keyed by ids `rhwp-1`, `rhwp-2`, …
//! that are handed out once each.

use crate::json_value::{json_from_u64, members_get, members_unique, object_insert, JsonNumber, JsonValue};
use crate::text::{dec_seq, lemma_dec_seq_injective, push_decimal, str_eq, string_of};
use vstd::prelude::*;

verus! {

/// The format a document was read from.
#[derive(Debug, Clone, Copy, PartialEq, Eq, Structural)]
pub enum FileFormat {
    Hwp,
    Hwpx,
    Hwp3,
    LegacyHwpml,
    Unknown,
}

/// The name under which a format is reported.
pub open spec fn format_name_spec(format: FileFormat) -> Seq<char> {
    match format {
        FileFormat::Hwp => "hwp"@,
        FileFormat::Hwpx => "hwpx"@,
        FileFormat::Hwp3 => "hwp3"@,
        FileFormat::LegacyHwpml => "legacy-hwpml"@,
        FileFormat::Unknown => "unknown"@,
    }
}

/// The name under which a format is reported.
pub fn format_name(format: FileFormat) -> (r: &'static str)
    ensures
        r@ == format_name_spec(format),
{
    match format {
        FileFormat::Hwp => "hwp",
        FileFormat::Hwpx => "hwpx",
        FileFormat::Hwp3 => "hwp3",
        FileFormat::LegacyHwpml => "legacy-hwpml",
        FileFormat::Unknown => "unknown",
    }
}

/// An open document: its id, the document itself, the file it came from,
/// its format and whether it changed since.
pub struct DocumentSession<C> {
    pub id: String,
    pub core: C,
    pub path: Option<String>,
    pub source_format: FileFormat,
    pub dirty: bool,
}

/// The id of the `k`-th session: `rhwp-k`.
pub open spec fn session_id_text(k: nat) -> Seq<char> {
    "rhwp-"@ + dec_seq(k)
}

/// The sessions of a list of keys and values, later keys last.
pub open spec fn map_of<C>(keys: Seq<Seq<char>>, vals: Seq<DocumentSession<C>>) -> Map<
    Seq<char>,
    DocumentSession<C>,
>
    decreases keys.len(),
{
    if keys.len() == 0 || vals.len() == 0 {
        Map::empty()
    } else {
        map_of(keys.drop_last(), vals.drop_last()).insert(keys.last(), vals.last())
    }
}

pub open spec fn distinct(keys: Seq<Seq<char>>) -> bool {
    forall|i: int, j: int| 0 <= i < keys.len() && 0 <= j < keys.len() && i != j ==> keys[i] != keys[j]
}

/// A session manager as plain values: the open sessions by id, and the
/// number that the next id will carry.
pub struct SessionsView<C> {
    pub sessions: Map<Seq<char>, DocumentSession<C>>,
    pub next_number: nat,
}

/// The open sessions, by id: the ids and the sessions in two lists of the
/// same length, each id once (see `wf`), the view being the map from id to
/// session.
pub struct SessionManager<C> {
    ids: Vec<String>,
    sessions: Vec<DocumentSession<C>>,
    next_id: u64,
}

impl<C> SessionManager<C> {
    /// The keys, as texts.
    pub closed spec fn keys(&self) -> Seq<Seq<char>> {
        self.ids@.map_values(|s: String| s@)
    }

    /// The open sessions by id, and the number of the next id to hand out.
    pub closed spec fn view(&self) -> SessionsView<C> {
        SessionsView { sessions: map_of(self.keys(), self.sessions@), next_number: self.next_id as nat }
    }

    /// The number of the next id to hand out.
    pub open spec fn next_number(&self) -> nat {
        self.view().next_number
    }

    /// Each session is kept under one key, and every key is an id that was
    /// handed out before.
    pub closed spec fn wf(&self) -> bool {
        &&& self.ids@.len() == self.sessions@.len()
        &&& distinct(self.keys())
        &&& self.next_id >= 1
        &&& forall|i: int|
            0 <= i < self.ids@.len() ==> exists|k: nat|
                1 <= k < self.next_id && #[trigger] self.keys()[i] == session_id_text(k)
        &&& forall|i: int| 0 <= i < self.sessions@.len() ==> (#[trigger] self.sessions@[i]).id@ == self.keys()[i]
    }
}

proof fn lemma_map_of_dom<C>(keys: Seq<Seq<char>>, vals: Seq<DocumentSession<C>>, k: Seq<char>)
    requires
        keys.len() == vals.len(),
    ensures
        map_of(keys, vals).dom().contains(k) <==> exists|i: int| 0 <= i < keys.len() && keys[i] == k,
    decreases keys.len(),
{
    if keys.len() > 0 {
        lemma_map_of_dom(keys.drop_last(), vals.drop_last(), k);
        if exists|i: int| 0 <= i < keys.len() && keys[i] == k {
            let i = choose|i: int| 0 <= i < keys.len() && keys[i] == k;
            if i < keys.len() - 1 {
                assert(keys.drop_last()[i] == k);
            }
        }
        if exists|i: int| 0 <= i < keys.len() - 1 && keys.drop_last()[i] == k {
            let i = choose|i: int| 0 <= i < keys.len() - 1 && keys.drop_last()[i] == k;
            assert(keys[i] == k);
        }
    }
}

proof fn lemma_map_of_index<C>(keys: Seq<Seq<char>>, vals: Seq<DocumentSession<C>>, i: int)
    requires
        keys.len() == vals.len(),
        distinct(keys),
        0 <= i < keys.len(),
    ensures
        map_of(keys, vals).dom().contains(keys[i]),
        map_of(keys, vals)[keys[i]] == vals[i],
    decreases keys.len(),
{
    if i < keys.len() - 1 {
        assert(keys.drop_last()[i] == keys[i]);
        assert(distinct(keys.drop_last()));
        lemma_map_of_index(keys.drop_last(), vals.drop_last(), i);
        assert(keys.last() != keys[i]);
    }
}

proof fn lemma_map_of_remove<C>(keys: Seq<Seq<char>>, vals: Seq<DocumentSession<C>>, i: int)
    requires
        keys.len() == vals.len(),
        distinct(keys),
        0 <= i < keys.len(),
    ensures
        map_of(keys.remove(i), vals.remove(i)) == map_of(keys, vals).remove(keys[i]),
        distinct(keys.remove(i)),
    decreases keys.len(),
{
    let k = keys[i];
    assert forall|a: int, b: int|
        0 <= a < keys.remove(i).len() && 0 <= b < keys.remove(i).len() && a != b implies keys.remove(
        i,
    )[a] != keys.remove(i)[b] by {
        let a2 = if a < i {
            a
        } else {
            a + 1
        };
        let b2 = if b < i {
            b
        } else {
            b + 1
        };
        assert(keys.remove(i)[a] == keys[a2]);
        assert(keys.remove(i)[b] == keys[b2]);
    }
    if i == keys.len() - 1 {
        assert(keys.remove(i) =~= keys.drop_last());
        assert(vals.remove(i) =~= vals.drop_last());
        lemma_map_of_dom(keys.drop_last(), vals.drop_last(), k);
        assert(map_of(keys.drop_last(), vals.drop_last()) =~= map_of(keys, vals).remove(k));
    } else {
        assert(distinct(keys.drop_last()));
        lemma_map_of_remove(keys.drop_last(), vals.drop_last(), i);
        assert(keys.remove(i).drop_last() =~= keys.drop_last().remove(i));
        assert(vals.remove(i).drop_last() =~= vals.drop_last().remove(i));
        assert(keys.remove(i).last() == keys.last());
        assert(vals.remove(i).last() == vals.last());
        assert(keys.last() != k);
        assert(map_of(keys.remove(i), vals.remove(i)) =~= map_of(keys, vals).remove(k));
    }
}

proof fn lemma_map_of_update<C>(
    keys: Seq<Seq<char>>,
    vals: Seq<DocumentSession<C>>,
    i: int,
    v: DocumentSession<C>,
)
    requires
        keys.len() == vals.len(),
        distinct(keys),
        0 <= i < keys.len(),
    ensures
        map_of(keys, vals.update(i, v)) == map_of(keys, vals).insert(keys[i], v),
    decreases keys.len(),
{
    if i == keys.len() - 1 {
        assert(vals.update(i, v).drop_last() =~= vals.drop_last());
        assert(map_of(keys, vals.update(i, v)) =~= map_of(keys, vals).insert(keys[i], v));
    } else {
        assert(distinct(keys.drop_last()));
        assert(vals.update(i, v).drop_last() =~= vals.drop_last().update(i, v));
        lemma_map_of_update(keys.drop_last(), vals.drop_last(), i, v);
        assert(keys.drop_last()[i] == keys[i]);
        assert(keys.last() != keys[i]);
        assert(map_of(keys, vals.update(i, v)) =~= map_of(keys, vals).insert(keys[i], v));
    }
}

impl<C> SessionManager<C> {
    /// No sessions; the first id will be `rhwp-1`.
    pub fn new() -> (r: Self)
        ensures
            r.wf(),
            r@.sessions == Map::<Seq<char>, DocumentSession<C>>::empty(),
            r.next_number() == 1,
    {
        let r = SessionManager { ids: Vec::new(), sessions: Vec::new(), next_id: 1 };
        assert(r.keys() =~= Seq::<Seq<char>>::empty());
        r
    }

    /// The position of the session with id `id`, if it is open.
    fn find(&self, id: &str) -> (r: Option<usize>)
        requires
            self.wf(),
        ensures
            match r {
                Some(i) => i < self.ids@.len() && self.keys()[i as int] == id@,
                None => !self@.sessions.dom().contains(id@),
            },
    {
        let mut i: usize = 0;
        while i < self.ids.len()
            invariant
                self.wf(),
                i <= self.ids@.len(),
                forall|j: int| 0 <= j < i ==> self.keys()[j] != id@,
            decreases self.ids@.len() - i,
        {
            if str_eq(self.ids[i].as_str(), id) {
                return Some(i);
            }
            i = i + 1;
        }
        proof {
            lemma_map_of_dom(self.keys(), self.sessions@, id@);
        }
        None
    }

    /// Hands out the next id.
    fn allocate_id(&mut self) -> (r: String)
        requires
            old(self).wf(),
            old(self).next_number() < u64::MAX,
        ensures
            r@ == session_id_text(old(self).next_number()),
            final(self).next_number() == old(self).next_number() + 1,
            final(self).ids == old(self).ids,
            final(self).sessions == old(self).sessions,
            final(self).wf(),
    {
        let mut id = string_of("rhwp-");
        push_decimal(&mut id, self.next_id);
        self.next_id = self.next_id + 1;
        proof {
            assert forall|i: int| 0 <= i < self.ids@.len() implies exists|k: nat|
                1 <= k < self.next_id && #[trigger] self.keys()[i] == session_id_text(k) by {
                let k = choose|k: nat| 1 <= k < old(self).next_id && old(self).keys()[i] == session_id_text(k);
                assert(self.keys()[i] == session_id_text(k));
            }
        }
        id
    }

    /// Adds a session under a fresh id and returns the id.
    fn add_session(&mut self, core: C, path: Option<String>, source_format: FileFormat, dirty: bool) -> (id: String)
        requires
            old(self).wf(),
            old(self).next_number() < u64::MAX,
        ensures
            final(self).wf(),
            id@ == session_id_text(old(self).next_number()),
            !old(self)@.sessions.dom().contains(id@),
            final(self)@.sessions == old(self)@.sessions.insert(
                id@,
                DocumentSession { id, core, path, source_format, dirty },
            ),
            final(self).next_number() == old(self).next_number() + 1,
    {
        let ghost n = self.next_id as nat;
        let id = self.allocate_id();
        proof {
            if old(self)@.sessions.dom().contains(id@) {
                reveal_strlit("rhwp-");
                lemma_map_of_dom(old(self).keys(), old(self).sessions@, id@);
                let i = choose|i: int| 0 <= i < old(self).keys().len() && old(self).keys()[i] == id@;
                let k = choose|k: nat| 1 <= k < n && #[trigger] old(self).keys()[i] == session_id_text(k);
                assert(("rhwp-"@ + dec_seq(k)).subrange(5, ("rhwp-"@ + dec_seq(k)).len() as int) =~= dec_seq(k));
                assert(("rhwp-"@ + dec_seq(n)).subrange(5, ("rhwp-"@ + dec_seq(n)).len() as int) =~= dec_seq(n));
                lemma_dec_seq_injective(k, n);
            }
        }
        let session = DocumentSession { id: id.clone(), core, path, source_format, dirty };
        let ghost s = session;
        self.ids.push(id.clone());
        self.sessions.push(session);
        proof {
            assert(self.keys() =~= old(self).keys().push(id@));
            assert(self.keys().drop_last() =~= old(self).keys());
            assert(self.sessions@.drop_last() =~= old(self).sessions@);
            lemma_map_of_dom(old(self).keys(), old(self).sessions@, id@);
            assert forall|i: int, j: int|
                0 <= i < self.keys().len() && 0 <= j < self.keys().len() && i != j implies self.keys()[i]
                != self.keys()[j] by {
                if i == self.keys().len() - 1 {
                    assert(self.keys()[j] == old(self).keys()[j]);
                } else if j == self.keys().len() - 1 {
                    assert(self.keys()[i] == old(self).keys()[i]);
                } else {
                    assert(self.keys()[i] == old(self).keys()[i]);
                    assert(self.keys()[j] == old(self).keys()[j]);
                }
            }
            assert forall|i: int| 0 <= i < self.ids@.len() implies exists|k: nat|
                1 <= k < self.next_id && #[trigger] self.keys()[i] == session_id_text(k) by {
                if i == self.ids@.len() - 1 {
                    assert(self.keys()[i] == session_id_text(n));
                } else {
                    assert(self.keys()[i] == old(self).keys()[i]);
                    let k = choose|k: nat| 1 <= k < n && old(self).keys()[i] == session_id_text(k);
                    assert(self.keys()[i] == session_id_text(k));
                }
            }
        }
        id
    }

    /// Adds a new (or generated) document as a session with no file behind
    /// it, and answers with the new session's id, its format's name, the
    /// document's information and page count as given, whether it counts as
    /// changed, and the session's metadata.
    pub fn new_core_session(
        &mut self,
        core: C,
        source_format: FileFormat,
        dirty: bool,
        document_info: JsonValue,
        page_count: u32,
    ) -> (r: JsonValue)
        requires
            old(self).wf(),
            old(self).next_number() < u64::MAX,
        ensures
            final(self).wf(),
            final(self).next_number() == old(self).next_number() + 1,
            added_session(old(self)@.sessions, final(self)@.sessions, session_id_text(old(self).next_number())),
            final(self)@.sessions[session_id_text(old(self).next_number())].core == core,
            final(self)@.sessions[session_id_text(old(self).next_number())].path is None,
            final(self)@.sessions[session_id_text(old(self).next_number())].source_format == source_format,
            final(self)@.sessions[session_id_text(old(self).next_number())].dirty == dirty,
            new_answer_is(r, session_id_text(old(self).next_number()), source_format, document_info, dirty),
            members_get(r->Object_0@, "metadata"@) matches Some(m) && metadata_is(
                m,
                final(self)@.sessions[session_id_text(old(self).next_number())],
                page_count,
            ),
    {
        let id = self.add_session(core, None, source_format, dirty);
        proof {
            assert(self@.sessions.remove(id@) =~= old(self)@.sessions);
        }
        let meta = match self.get(&id) {
            Ok(s) => s.metadata_json(page_count),
            Err(_) => JsonValue::Null,
        };
        new_session_json(&id, source_format, document_info, dirty, meta)
    }

    /// Adds a document read from the file `path` as a clean session, and
    /// answers with the new session's id, the file, its format's name, the
    /// document's information and page count as given, and the session's
    /// metadata. `loaded` is the outcome of resolving, reading and parsing
    /// the file; where any of those failed, its error is the answer and no
    /// session is added, so the next id stays the same.
    pub fn open(
        &mut self,
        loaded: Result<C, String>,
        path: String,
        source_format: FileFormat,
        document_info: JsonValue,
        page_count: u32,
    ) -> (r: Result<JsonValue, String>)
        requires
            old(self).wf(),
            old(self).next_number() < u64::MAX,
        ensures
            final(self).wf(),
            loaded is Err ==> r == Err::<JsonValue, String>(loaded->Err_0) && *final(self) == *old(self),
            loaded is Ok ==> {
                let id = session_id_text(old(self).next_number());
                &&& final(self).next_number() == old(self).next_number() + 1
                &&& added_session(old(self)@.sessions, final(self)@.sessions, id)
                &&& final(self)@.sessions[id].core == loaded->Ok_0
                &&& final(self)@.sessions[id].path == Some(path)
                &&& final(self)@.sessions[id].source_format == source_format
                &&& !final(self)@.sessions[id].dirty
                &&& r is Ok
                &&& opened_answer_is(r->Ok_0, id, path@, source_format, document_info)
                &&& (members_get(r->Ok_0->Object_0@, "metadata"@) matches Some(m) && metadata_is(
                    m,
                    final(self)@.sessions[id],
                    page_count,
                ))
            },
    {
        let core = match loaded {
            Ok(core) => core,
            Err(e) => {
                return Err(e);
            },
        };
        let shown = path.clone();
        let id = self.add_session(core, Some(path), source_format, false);
        proof {
            assert(self@.sessions.remove(id@) =~= old(self)@.sessions);
        }
        let meta = match self.get(&id) {
            Ok(s) => s.metadata_json(page_count),
            Err(_) => JsonValue::Null,
        };
        Ok(opened_session_json(&id, &shown, source_format, document_info, meta))
    }

    /// The error for an id that names no open session.
    fn unknown_session(id: &str) -> (r: String)
        ensures
            r@ == "unknown session_id: "@ + id@,
    {
        let mut msg = string_of("unknown session_id: ");
        crate::text::push_str(&mut msg, id);
        msg
    }

    /// The session with id `id`.
    pub fn get(&self, id: &str) -> (r: Result<&DocumentSession<C>, String>)
        requires
            self.wf(),
        ensures
            match r {
                Ok(s) => self@.sessions.dom().contains(id@) && *s == self@.sessions[id@] && s.id@ == id@,
                Err(e) => !self@.sessions.dom().contains(id@) && e@ == "unknown session_id: "@ + id@,
            },
    {
        match self.find(id) {
            Some(i) => {
                proof {
                    lemma_map_of_index(self.keys(), self.sessions@, i as int);
                }
                Ok(&self.sessions[i])
            },
            None => Err(Self::unknown_session(id)),
        }
    }

    /// Closes the session with id `id`, and answers `ok` with its id and
    /// whether it had changed.
    pub fn close(&mut self, id: &str) -> (r: Result<JsonValue, String>)
        requires
            old(self).wf(),
        ensures
            final(self).wf(),
            final(self).next_number() == old(self).next_number(),
            match r {
                Ok(v) => old(self)@.sessions.dom().contains(id@) && final(self)@.sessions == old(self)@.sessions.remove(id@)
                    && closed_answer_is(v, id@, old(self)@.sessions[id@].dirty),
                Err(e) => !old(self)@.sessions.dom().contains(id@) && e@ == "unknown session_id: "@ + id@
                    && final(self)@.sessions == old(self)@.sessions,
            },
    {
        match self.find(id) {
            Some(i) => {
                proof {
                    lemma_map_of_index(self.keys(), self.sessions@, i as int);
                    lemma_map_of_remove(self.keys(), self.sessions@, i as int);
                }
                self.ids.remove(i);
                let s = self.sessions.remove(i);
                proof {
                    assert(self.keys() =~= old(self).keys().remove(i as int));
                    assert forall|j: int| 0 <= j < self.ids@.len() implies exists|k: nat|
                        1 <= k < self.next_id && #[trigger] self.keys()[j] == session_id_text(k) by {
                        let j2 = if j < i {
                            j
                        } else {
                            j + 1
                        };
                        assert(self.keys()[j] == old(self).keys()[j2]);
                        let k = choose|k: nat| 1 <= k < old(self).next_id && old(self).keys()[j2] == session_id_text(k);
                        assert(self.keys()[j] == session_id_text(k));
                    }
                }
                Ok(closed_session_json(id, s.dirty))
            },
            None => Err(Self::unknown_session(id)),
        }
    }
}

impl<C> SessionManager<C> {
    /// Every open session's id is that of a session added before the next
    /// one: `rhwp-k` with `k` below the next number. As the next number
    /// only grows, an id is never handed out twice, even after its session
    /// is closed.
    pub proof fn lemma_open_ids_below_next(&self, t: Seq<char>)
        requires
            self.wf(),
            self@.sessions.dom().contains(t),
        ensures
            exists|k: nat| 1 <= k < self.next_number() && t == #[trigger] session_id_text(k),
            t != session_id_text(self.next_number()),
    {
        lemma_map_of_dom(self.keys(), self.sessions@, t);
        let i = choose|i: int| 0 <= i < self.keys().len() && self.keys()[i] == t;
        let k = choose|k: nat| 1 <= k < self.next_id && #[trigger] self.keys()[i] == session_id_text(k);
        assert(session_id_text(k) == t);
        lemma_session_ids_distinct(k, self.next_number());
    }
}

impl<C> SessionManager<C> {
    /// The session with id `id`, to be changed in place.
    pub fn get_mut(&mut self, id: &str) -> (r: Result<&mut DocumentSession<C>, String>)
        requires
            old(self).wf(),
        ensures
            match r {
                Ok(s) => old(self)@.sessions.dom().contains(id@) && *s == old(self)@.sessions[id@] && s.id@ == id@
                    && final(self)@.sessions == old(self)@.sessions.insert(id@, *final(s))
                    && (final(s).id@ == id@ ==> final(self).wf())
                    && final(self).next_number() == old(self).next_number(),
                Err(e) => !old(self)@.sessions.dom().contains(id@) && e@ == "unknown session_id: "@ + id@
                    && *final(self) == *old(self),
            },
    {
        match self.find(id) {
            Some(i) => {
                proof {
                    lemma_map_of_index(self.keys(), self.sessions@, i as int);
                }
                let ghost keys = self.keys();
                let ghost vals = self.sessions@;
                let s = &mut self.sessions[i];
                proof {
                    lemma_map_of_update(keys, vals, i as int, *final(s));
                }
                Ok(s)
            },
            None => Err(Self::unknown_session(id)),
        }
    }
}

impl<C> Default for SessionManager<C> {
    fn default() -> (r: Self)
        ensures
            r.wf(),
            r@.sessions == Map::<Seq<char>, DocumentSession<C>>::empty(),
            r.next_number() == 1,
    {
        Self::new()
    }
}

/// Each id is handed out once: the `k`-th id is `rhwp-k`, the counter only
/// grows, and different numbers give different ids.
pub proof fn lemma_session_ids_distinct(a: nat, b: nat)
    requires
        a != b,
    ensures
        session_id_text(a) != session_id_text(b),
{
    reveal_strlit("rhwp-");
    if session_id_text(a) == session_id_text(b) {
        assert(session_id_text(a).subrange(5, session_id_text(a).len() as int) =~= dec_seq(a));
        assert(session_id_text(b).subrange(5, session_id_text(b).len() as int) =~= dec_seq(b));
        lemma_dec_seq_injective(a, b);
    }
}

// ---------------------------------------------------------------------------
// What the session calls answer, as JSON
// ---------------------------------------------------------------------------

/// A member holding a text as a JSON string.
pub open spec fn text_member_is(got: Option<JsonValue>, t: Seq<char>) -> bool {
    got matches Some(JsonValue::String(s)) && s@ == t
}

/// `after` is `before` with one more session, under the new key `t`, whose
/// id is `t`.
pub open spec fn added_session<C>(
    before: Map<Seq<char>, DocumentSession<C>>,
    after: Map<Seq<char>, DocumentSession<C>>,
    t: Seq<char>,
) -> bool {
    &&& !before.dom().contains(t)
    &&& after.dom().contains(t)
    &&& after.remove(t) == before
    &&& after[t].id@ == t
}

/// `m` is the metadata of session `s` with `page_count` pages: its id, its
/// file (or null), its format's name, whether it changed, and the page
/// count, and nothing else.
pub open spec fn metadata_is<C>(m: JsonValue, s: DocumentSession<C>, page_count: u32) -> bool {
    &&& m is Object
    &&& members_unique(m->Object_0@)
    &&& text_member_is(members_get(m->Object_0@, "session_id"@), s.id@)
    &&& match s.path {
        Some(p) => text_member_is(members_get(m->Object_0@, "path"@), p@),
        None => members_get(m->Object_0@, "path"@) == Some(JsonValue::Null),
    }
    &&& text_member_is(members_get(m->Object_0@, "source_format"@), format_name_spec(s.source_format))
    &&& members_get(m->Object_0@, "dirty"@) == Some(JsonValue::Bool(s.dirty))
    &&& members_get(m->Object_0@, "page_count"@) == Some(JsonValue::Number(JsonNumber::PosInt(page_count as u64)))
    &&& forall|k: Seq<char>| #![trigger members_get(m->Object_0@, k)]
        k != "session_id"@ && k != "path"@ && k != "source_format"@ && k != "dirty"@ && k != "page_count"@
            ==> members_get(m->Object_0@, k) is None
}

/// `r` answers the opening of a file: the session's id, the file, the
/// format's name, the document's information and the session's metadata,
/// and nothing else.
pub open spec fn opened_answer_is(r: JsonValue, id: Seq<char>, path: Seq<char>, source_format: FileFormat, document_info: JsonValue) -> bool {
    &&& r is Object
    &&& members_unique(r->Object_0@)
    &&& text_member_is(members_get(r->Object_0@, "session_id"@), id)
    &&& text_member_is(members_get(r->Object_0@, "path"@), path)
    &&& text_member_is(members_get(r->Object_0@, "source_format"@), format_name_spec(source_format))
    &&& members_get(r->Object_0@, "document_info"@) == Some(document_info)
    &&& members_get(r->Object_0@, "metadata"@) is Some
    &&& forall|k: Seq<char>| #![trigger members_get(r->Object_0@, k)]
        k != "session_id"@ && k != "path"@ && k != "source_format"@ && k != "document_info"@ && k != "metadata"@
            ==> members_get(r->Object_0@, k) is None
}

/// `r` answers the adding of a document: the session's id, the format's
/// name, the document's information, whether it counts as changed, and the
/// session's metadata, and nothing else.
pub open spec fn new_answer_is(r: JsonValue, id: Seq<char>, source_format: FileFormat, document_info: JsonValue, dirty: bool) -> bool {
    &&& r is Object
    &&& members_unique(r->Object_0@)
    &&& text_member_is(members_get(r->Object_0@, "session_id"@), id)
    &&& text_member_is(members_get(r->Object_0@, "source_format"@), format_name_spec(source_format))
    &&& members_get(r->Object_0@, "document_info"@) == Some(document_info)
    &&& members_get(r->Object_0@, "dirty"@) == Some(JsonValue::Bool(dirty))
    &&& members_get(r->Object_0@, "metadata"@) is Some
    &&& forall|k: Seq<char>| #![trigger members_get(r->Object_0@, k)]
        k != "session_id"@ && k != "source_format"@ && k != "document_info"@ && k != "dirty"@ && k != "metadata"@
            ==> members_get(r->Object_0@, k) is None
}

/// `r` answers the closing of a session: `ok`, its id and whether it had
/// changed, and nothing else.
pub open spec fn closed_answer_is(r: JsonValue, id: Seq<char>, dirty: bool) -> bool {
    &&& r is Object
    &&& members_unique(r->Object_0@)
    &&& members_get(r->Object_0@, "ok"@) == Some(JsonValue::Bool(true))
    &&& text_member_is(members_get(r->Object_0@, "session_id"@), id)
    &&& members_get(r->Object_0@, "dirty"@) == Some(JsonValue::Bool(dirty))
    &&& forall|k: Seq<char>| #![trigger members_get(r->Object_0@, k)]
        k != "ok"@ && k != "session_id"@ && k != "dirty"@ ==> members_get(r->Object_0@, k) is None
}

proof fn lemma_session_keys()
    ensures
        "session_id"@.len() == 10,
        "path"@.len() == 4,
        "source_format"@.len() == 13,
        "dirty"@.len() == 5,
        "page_count"@.len() == 10,
        "document_info"@.len() == 13,
        "metadata"@.len() == 8,
        "ok"@.len() == 2,
        "page_count"@[0] == 'p',
        "session_id"@[0] == 's',
        "document_info"@[0] == 'd',
        "source_format"@[0] == 's',
{
    reveal_strlit("session_id");
    reveal_strlit("path");
    reveal_strlit("source_format");
    reveal_strlit("dirty");
    reveal_strlit("page_count");
    reveal_strlit("document_info");
    reveal_strlit("metadata");
    reveal_strlit("ok");
}

fn put(map: &mut Vec<(String, JsonValue)>, key: &str, value: JsonValue)
    ensures
        forall|k: Seq<char>| #[trigger] members_get(final(map)@, k) == if k == key@ {
            Some(value)
        } else {
            members_get(old(map)@, k)
        },
        members_unique(old(map)@) ==> members_unique(final(map)@),
{
    object_insert(map, string_of(key), value);
}

fn empty_object() -> (r: Vec<(String, JsonValue)>)
    ensures
        r@.len() == 0,
        forall|k: Seq<char>| #[trigger] members_get(r@, k) is None,
        members_unique(r@),
{
    Vec::new()
}

impl<C> DocumentSession<C> {
    /// A session's metadata: its id, its file (or null), its format's name,
    /// whether it changed, and the page count of its document (which the
    /// caller reads from the document).
    pub fn metadata_json(&self, page_count: u32) -> (r: JsonValue)
        ensures
            metadata_is(r, *self, page_count),
    {
        proof {
            lemma_session_keys();
        }
        let mut map = empty_object();
        put(&mut map, "session_id", JsonValue::String(self.id.clone()));
        put(&mut map, "path", match &self.path {
            Some(p) => JsonValue::String(p.clone()),
            None => JsonValue::Null,
        });
        put(&mut map, "source_format", JsonValue::String(string_of(format_name(self.source_format))));
        put(&mut map, "dirty", JsonValue::Bool(self.dirty));
        put(&mut map, "page_count", json_from_u64(page_count as u64));
        JsonValue::Object(map)
    }
}

/// The answer to opening a file: the new session's id, the file, the
/// format's name, and the document's information and the session's
/// metadata as given.
pub fn opened_session_json(id: &str, path: &str, source_format: FileFormat, document_info: JsonValue, metadata: JsonValue) -> (r: JsonValue)
    ensures
        opened_answer_is(r, id@, path@, source_format, document_info),
        members_get(r->Object_0@, "metadata"@) == Some(metadata),
{
    proof {
        lemma_session_keys();
    }
    let mut map = empty_object();
    put(&mut map, "session_id", JsonValue::String(string_of(id)));
    put(&mut map, "path", JsonValue::String(string_of(path)));
    put(&mut map, "source_format", JsonValue::String(string_of(format_name(source_format))));
    put(&mut map, "document_info", document_info);
    put(&mut map, "metadata", metadata);
    JsonValue::Object(map)
}

/// The answer to adding a new document: the new session's id, the
/// format's name, the document's information, whether it counts as
/// changed, and the session's metadata.
pub fn new_session_json(id: &str, source_format: FileFormat, document_info: JsonValue, dirty: bool, metadata: JsonValue) -> (r: JsonValue)
    ensures
        new_answer_is(r, id@, source_format, document_info, dirty),
        members_get(r->Object_0@, "metadata"@) == Some(metadata),
{
    proof {
        lemma_session_keys();
    }
    let mut map = empty_object();
    put(&mut map, "session_id", JsonValue::String(string_of(id)));
    put(&mut map, "source_format", JsonValue::String(string_of(format_name(source_format))));
    put(&mut map, "document_info", document_info);
    put(&mut map, "dirty", JsonValue::Bool(dirty));
    put(&mut map, "metadata", metadata);
    JsonValue::Object(map)
}

/// The answer to closing a session: `ok`, its id and whether it had
/// changed.
pub fn closed_session_json(id: &str, dirty: bool) -> (r: JsonValue)
    ensures
        closed_answer_is(r, id@, dirty),
{
    proof {
        lemma_session_keys();
    }
    let mut map = empty_object();
    put(&mut map, "ok", JsonValue::Bool(true));
    put(&mut map, "session_id", JsonValue::String(string_of(id)));
    put(&mut map, "dirty", JsonValue::Bool(dirty));
    JsonValue::Object(map)
}

/// `format_name` gives each value its own text: the one listed here, which no
/// other value shares.
pub proof fn lemma_format_name_values(format: FileFormat)
    ensures
        format_name_spec(format) == "hwp"@ <==> (format == FileFormat::Hwp),
        format_name_spec(format) == "hwpx"@ <==> (format == FileFormat::Hwpx),
        format_name_spec(format) == "hwp3"@ <==> (format == FileFormat::Hwp3),
        format_name_spec(format) == "legacy-hwpml"@ <==> (format == FileFormat::LegacyHwpml),
        format_name_spec(format) == "unknown"@ <==> (format == FileFormat::Unknown),
{
    reveal_strlit("hwp");
    reveal_strlit("hwpx");
    reveal_strlit("hwp3");
    reveal_strlit("legacy-hwpml");
    reveal_strlit("unknown");
    assert("hwp"@.len() != "hwpx"@.len());
    assert("hwp"@.len() != "hwp3"@.len());
    assert("hwp"@.len() != "legacy-hwpml"@.len());
    assert("hwp"@.len() != "unknown"@.len());
    assert("hwpx"@[3] != "hwp3"@[3]);
    assert("hwpx"@.len() != "legacy-hwpml"@.len());
    assert("hwpx"@.len() != "unknown"@.len());
    assert("hwp3"@.len() != "legacy-hwpml"@.len());
    assert("hwp3"@.len() != "unknown"@.len());
    assert("legacy-hwpml"@.len() != "unknown"@.len());
}

} // verus!
