//! Answers of servers that are kept for a while, so that they need not be asked for again.

use crate::text::text_eq;
use vstd::prelude::*;

verus! {

/// A moment of the clock of the async runtime.
#[verifier::external_type_specification]
#[verifier::external_body]
pub struct ExInstant(tokio::time::Instant);

/// `Instant::now` reads the clock. Nothing is said of what it shows.
#[verifier::external_body]
fn clock_now() -> (now: tokio::time::Instant) {
    tokio::time::Instant::now()
}

/// The whole seconds from one moment to a later one, as `Instant::duration_since` counts them.
pub uninterp spec fn seconds_between(
    later: tokio::time::Instant,
    earlier: tokio::time::Instant,
) -> u64;

/// `Instant::duration_since` gives the time from one moment to another, here in whole seconds.
/// It depends on the two moments alone.
#[verifier::external_body]
fn count_seconds(later: &tokio::time::Instant, earlier: &tokio::time::Instant) -> (seconds: u64)
    ensures
        seconds == seconds_between(*later, *earlier),
{
    later.duration_since(*earlier).as_secs()
}

struct CacheEntry {
    session_id: String,
    key: String,
    value: String,
    stored_at: tokio::time::Instant,
}

/// A cache of server answers, by session and key.
pub struct SshCache {
    entries: Vec<CacheEntry>,
}

/// A text in a cache, with the moment at which it was put there.
pub struct Kept {
    pub text: Seq<char>,
    pub stored_at: tokio::time::Instant,
}

/// What a cache holds: texts by session and key.
pub type Contents = Map<(Seq<char>, Seq<char>), Kept>;

impl CacheEntry {
    spec fn name(self) -> (Seq<char>, Seq<char>) {
        (self.session_id@, self.key@)
    }

    spec fn kept(self) -> Kept {
        Kept { text: self.value@, stored_at: self.stored_at }
    }
}

/// The texts in some entries: a later entry replaces an earlier one.
spec fn entries_map(entries: Seq<CacheEntry>) -> Contents
    decreases entries.len(),
{
    if entries.len() == 0 {
        Map::empty()
    } else {
        entries_map(entries.drop_last()).insert(entries.last().name(), entries.last().kept())
    }
}

/// What is kept under a session and a key.
pub open spec fn kept(contents: Contents, session_id: Seq<char>, key: Seq<char>) -> Option<Kept> {
    if contents.dom().contains((session_id, key)) {
        Some(contents[(session_id, key)])
    } else {
        None
    }
}

/// Whether a text of some age still counts: forever where the lifetime is zero.
pub open spec fn is_fresh(age_secs: u64, ttl_secs: u64) -> bool {
    ttl_secs == 0 || age_secs < ttl_secs
}

/// What a lookup at some moment gives of what is kept.
pub open spec fn looked_up(
    kept: Option<Kept>,
    now: tokio::time::Instant,
    ttl_secs: u64,
) -> Option<Seq<char>> {
    match kept {
        Some(kept) => if is_fresh(seconds_between(now, kept.stored_at), ttl_secs) {
            Some(kept.text)
        } else {
            None
        },
        None => None,
    }
}

/// What is held when a text has been put under a session and a key at some moment.
pub open spec fn with_text(
    contents: Contents,
    session_id: Seq<char>,
    key: Seq<char>,
    text: Seq<char>,
    now: tokio::time::Instant,
) -> Contents {
    contents.insert((session_id, key), Kept { text, stored_at: now })
}

/// What remains without some keys of a session.
pub open spec fn without_keys(
    contents: Contents,
    session_id: Seq<char>,
    keys: Seq<Seq<char>>,
) -> Contents {
    contents.remove_keys(
        Set::new(|name: (Seq<char>, Seq<char>)| name.0 == session_id && keys.contains(name.1)),
    )
}

/// What remains without a session.
pub open spec fn without_session(contents: Contents, session_id: Seq<char>) -> Contents {
    contents.remove_keys(Set::new(|name: (Seq<char>, Seq<char>)| name.0 == session_id))
}

/// The characters of each text in a list.
pub open spec fn key_texts(keys: Seq<&str>) -> Seq<Seq<char>> {
    keys.map_values(|key: &str| key@)
}

/// An optional text as its characters.
pub open spec fn found_view(found: Option<String>) -> Option<Seq<char>> {
    match found {
        Some(text) => Some(text@),
        None => None,
    }
}

/// The value of a kept text, where it still counts at its age.
pub fn value_at_age(value: &str, age_secs: u64, ttl_secs: u64) -> (found: Option<String>)
    ensures
        found_view(found) == if is_fresh(age_secs, ttl_secs) {
            Some(value@)
        } else {
            None
        },
{
    if ttl_secs == 0 || age_secs < ttl_secs {
        Some(value.to_owned())
    } else {
        None
    }
}

fn listed(keys: &[&str], key: &str) -> (found: bool)
    ensures
        found == key_texts(keys@).contains(key@),
{
    let mut i: usize = 0;
    while i < keys.len()
        invariant
            i <= keys@.len(),
            forall|j: int| 0 <= j < i ==> #[trigger] key_texts(keys@)[j] != key@,
        decreases keys@.len() - i,
    {
        if text_eq(keys[i], key) {
            assert(key_texts(keys@)[i as int] == key@);
            return true;
        }
        i += 1;
    }
    assert(key_texts(keys@).len() == keys@.len());
    false
}

impl SshCache {
    /// What the cache holds, fresh or not.
    pub closed spec fn contents(&self) -> Contents {
        entries_map(self.entries@)
    }

    /// An empty cache.
    pub fn new() -> (cache: Self)
        ensures
            cache.contents() == Contents::empty(),
    {
        SshCache { entries: Vec::new() }
    }

    /// The text that is kept under a session and a key, where it is not older than its
    /// lifetime. A lifetime of zero does not end.
    pub fn get(&self, session_id: &str, key: &str, ttl_secs: u64) -> (found: Option<String>)
        ensures
            exists|now: tokio::time::Instant|
                found_view(found) == #[trigger] looked_up(
                    kept(self.contents(), session_id@, key@),
                    now,
                    ttl_secs,
                ),
    {
        let now = clock_now();
        let found = self.get_at(session_id, key, ttl_secs, &now);
        assert(found_view(found) == looked_up(
            kept(self.contents(), session_id@, key@),
            now,
            ttl_secs,
        ));
        found
    }

    /// The text that is kept under a session and a key, where it is not older than its
    /// lifetime at some moment.
    pub fn get_at(
        &self,
        session_id: &str,
        key: &str,
        ttl_secs: u64,
        now: &tokio::time::Instant,
    ) -> (found: Option<String>)
        ensures
            found_view(found) == looked_up(
                kept(self.contents(), session_id@, key@),
                *now,
                ttl_secs,
            ),
    {
        let mut i: usize = self.entries.len();
        assert(self.entries@.take(i as int) == self.entries@);
        while i > 0
            invariant
                i <= self.entries@.len(),
                kept(self.contents(), session_id@, key@) == kept(
                    entries_map(self.entries@.take(i as int)),
                    session_id@,
                    key@,
                ),
            decreases i,
        {
            i -= 1;
            assert(self.entries@.take(i + 1).drop_last() == self.entries@.take(i as int));
            let entry = &self.entries[i];
            if text_eq(entry.session_id.as_str(), session_id) && text_eq(entry.key.as_str(), key) {
                let age: u64 = count_seconds(now, &entry.stored_at);
                assert(kept(self.contents(), session_id@, key@) == Some(entry.kept()));
                return value_at_age(entry.value.as_str(), age, ttl_secs);
            }
        }
        assert(self.entries@.take(0).len() == 0);
        None
    }

    /// Keeps a text under a session and a key, in place of the one that was kept there. It is
    /// kept from the moment that the clock shows.
    pub fn put(&mut self, session_id: &str, key: &str, value: String)
        ensures
            exists|now: tokio::time::Instant|
                final(self).contents() == #[trigger] with_text(
                    old(self).contents(),
                    session_id@,
                    key@,
                    value@,
                    now,
                ),
    {
        let now = clock_now();
        self.put_at(session_id, key, value, now);
    }

    /// Keeps a text under a session and a key from some moment, in place of the one that was
    /// kept there.
    pub fn put_at(
        &mut self,
        session_id: &str,
        key: &str,
        value: String,
        now: tokio::time::Instant,
    )
        ensures
            final(self).contents() == with_text(
                old(self).contents(),
                session_id@,
                key@,
                value@,
                now,
            ),
    {
        let ghost before = self.contents();
        self.drop_entries(session_id, &[key]);
        let ghost rest = self.entries@;
        self.entries.push(
            CacheEntry {
                session_id: session_id.to_owned(),
                key: key.to_owned(),
                value,
                stored_at: now,
            },
        );
        proof {
            assert(self.entries@.drop_last() == rest);
            let keys: Seq<&str> = seq![key];
            assert(key_texts(keys)[0] == key@);
            assert(key_texts(keys).contains(key@));
            assert(self.contents() =~= with_text(before, session_id@, key@, value@, now));
        }
    }

    fn drop_entries(&mut self, session_id: &str, keys: &[&str])
        ensures
            final(self).contents() == without_keys(
                old(self).contents(),
                session_id@,
                key_texts(keys@),
            ),
    {
        let mut entries: Vec<CacheEntry> = Vec::new();
        std::mem::swap(&mut entries, &mut self.entries);
        let ghost all = entries@;
        let mut rest: Vec<CacheEntry> = Vec::new();
        assert(all.take(0).len() == 0);
        assert(entries_map(rest@) =~= without_keys(
            entries_map(all.take(0)),
            session_id@,
            key_texts(keys@),
        ));
        for entry in it: entries
            invariant
                it.seq() == all,
                entries_map(rest@) == without_keys(
                    entries_map(all.take(it.index() as int)),
                    session_id@,
                    key_texts(keys@),
                ),
        {
            let ghost i = it.index() as int;
            let ghost before = rest@;
            assert(all.take(i + 1).drop_last() == all.take(i));
            if !(text_eq(entry.session_id.as_str(), session_id) && listed(
                keys,
                entry.key.as_str(),
            )) {
                rest.push(entry);
                assert(rest@.drop_last() == before);
            }
            assert(entries_map(rest@) =~= without_keys(
                entries_map(all.take(i + 1)),
                session_id@,
                key_texts(keys@),
            ));
        }
        assert(all.take(all.len() as int) == all);
        self.entries = rest;
    }

    /// Forgets some keys of a session.
    pub fn invalidate(&mut self, session_id: &str, keys: &[&str])
        ensures
            final(self).contents() == without_keys(
                old(self).contents(),
                session_id@,
                key_texts(keys@),
            ),
    {
        self.drop_entries(session_id, keys);
    }

    /// Forgets all keys of a session.
    pub fn clear_session(&mut self, session_id: &str)
        ensures
            final(self).contents() == without_session(old(self).contents(), session_id@),
    {
        let mut entries: Vec<CacheEntry> = Vec::new();
        std::mem::swap(&mut entries, &mut self.entries);
        let ghost all = entries@;
        let mut rest: Vec<CacheEntry> = Vec::new();
        assert(all.take(0).len() == 0);
        assert(entries_map(rest@) =~= without_session(entries_map(all.take(0)), session_id@));
        for entry in it: entries
            invariant
                it.seq() == all,
                entries_map(rest@) == without_session(
                    entries_map(all.take(it.index() as int)),
                    session_id@,
                ),
        {
            let ghost i = it.index() as int;
            let ghost before = rest@;
            assert(all.take(i + 1).drop_last() == all.take(i));
            if !text_eq(entry.session_id.as_str(), session_id) {
                rest.push(entry);
                assert(rest@.drop_last() == before);
            }
            assert(entries_map(rest@) =~= without_session(
                entries_map(all.take(i + 1)),
                session_id@,
            ));
        }
        assert(all.take(all.len() as int) == all);
        self.entries = rest;
    }
}

/// A text that was put into a cache is found there under its session and key, with the moment
/// at which it was put, and what other sessions and keys keep does not change.
pub proof fn law_put_is_kept(
    contents: Contents,
    session_id: Seq<char>,
    key: Seq<char>,
    text: Seq<char>,
    now: tokio::time::Instant,
    other_session: Seq<char>,
    other_key: Seq<char>,
)
    ensures
        kept(with_text(contents, session_id, key, text, now), session_id, key) == Some(
            Kept { text, stored_at: now },
        ),
        (other_session, other_key) != (session_id, key) ==> kept(
            with_text(contents, session_id, key, text, now),
            other_session,
            other_key,
        ) == kept(contents, other_session, other_key),
{
}

/// Forgetting some keys of a session forgets those and no others.
pub proof fn law_invalidate_forgets_the_keys(
    contents: Contents,
    session_id: Seq<char>,
    keys: Seq<Seq<char>>,
    other_session: Seq<char>,
    key: Seq<char>,
)
    ensures
        keys.contains(key) ==> kept(without_keys(contents, session_id, keys), session_id, key)
            is None,
        other_session != session_id || !keys.contains(key) ==> kept(
            without_keys(contents, session_id, keys),
            other_session,
            key,
        ) == kept(contents, other_session, key),
{
}

/// Forgetting a session forgets all its keys and nothing of other sessions.
pub proof fn law_clear_forgets_the_session(
    contents: Contents,
    session_id: Seq<char>,
    other_session: Seq<char>,
    key: Seq<char>,
)
    ensures
        kept(without_session(contents, session_id), session_id, key) is None,
        other_session != session_id ==> kept(
            without_session(contents, session_id),
            other_session,
            key,
        ) == kept(contents, other_session, key),
{
}

/// A change of a cache.
pub enum Change {
    /// A text is put under a session and a key at some moment.
    Put {
        session_id: Seq<char>,
        key: Seq<char>,
        text: Seq<char>,
        now: tokio::time::Instant,
    },
    /// Some keys of a session are forgotten.
    Invalidate { of_session: Seq<char>, keys: Seq<Seq<char>> },
    /// A session is forgotten.
    Clear { whole_session: Seq<char> },
}

/// What is held after a change.
pub open spec fn changed(contents: Contents, change: Change) -> Contents {
    match change {
        Change::Put { session_id, key, text, now } => with_text(
            contents,
            session_id,
            key,
            text,
            now,
        ),
        Change::Invalidate { of_session, keys } => without_keys(contents, of_session, keys),
        Change::Clear { whole_session } => without_session(contents, whole_session),
    }
}

/// What is held after some changes.
pub open spec fn changed_by_all(contents: Contents, changes: Seq<Change>) -> Contents
    decreases changes.len(),
{
    if changes.len() == 0 {
        contents
    } else {
        changed(changed_by_all(contents, changes.drop_last()), changes.last())
    }
}

/// Whether a change concerns a key of a session.
pub open spec fn concerns(change: Change, session_id: Seq<char>, key: Seq<char>) -> bool {
    match change {
        Change::Put { session_id: session, key: k, .. } => session == session_id && k == key,
        Change::Invalidate { of_session, keys } => of_session == session_id && keys.contains(key),
        Change::Clear { whole_session } => whole_session == session_id,
    }
}

proof fn lemma_unconcerned(
    contents: Contents,
    changes: Seq<Change>,
    session_id: Seq<char>,
    key: Seq<char>,
)
    requires
        forall|i: int|
            0 <= i < changes.len() ==> !concerns(#[trigger] changes[i], session_id, key),
    ensures
        kept(changed_by_all(contents, changes), session_id, key) == kept(contents, session_id, key),
    decreases changes.len(),
{
    if changes.len() > 0 {
        assert(!concerns(changes[changes.len() - 1], session_id, key));
        assert forall|i: int| 0 <= i < changes.drop_last().len() implies !concerns(
            #[trigger] changes.drop_last()[i],
            session_id,
            key,
        ) by {
            assert(changes.drop_last()[i] == changes[i]);
        }
        lemma_unconcerned(contents, changes.drop_last(), session_id, key);
    }
}

/// The last text that was put under a session and a key is found for as long as its lifetime,
/// whatever else is put and forgotten meanwhile: for ever where the lifetime is zero, and
/// otherwise while fewer whole seconds have passed.
pub proof fn law_text_lives_for_its_lifetime(
    before: Contents,
    session_id: Seq<char>,
    key: Seq<char>,
    text: Seq<char>,
    put_at: tokio::time::Instant,
    later: Seq<Change>,
    now: tokio::time::Instant,
    ttl_secs: u64,
)
    requires
        forall|i: int| 0 <= i < later.len() ==> !concerns(#[trigger] later[i], session_id, key),
    ensures
        looked_up(
            kept(
                changed_by_all(with_text(before, session_id, key, text, put_at), later),
                session_id,
                key,
            ),
            now,
            ttl_secs,
        ) == if ttl_secs == 0 || seconds_between(now, put_at) < ttl_secs {
            Some(text)
        } else {
            None
        },
{
    lemma_unconcerned(with_text(before, session_id, key, text, put_at), later, session_id, key);
}

/// Under a session and a key nothing is found at any moment, for any lifetime, unless a text was
/// put there and not forgotten since: in a cache that was made empty, or after a change that
/// forgets the key, as long as no text is put there.
pub proof fn law_nothing_is_found_without_a_put(
    before: Contents,
    session_id: Seq<char>,
    key: Seq<char>,
    later: Seq<Change>,
    now: tokio::time::Instant,
    ttl_secs: u64,
)
    requires
        before == Contents::empty() || exists|contents: Contents, change: Change|
            concerns(change, session_id, key) && !(change is Put) && before == #[trigger] changed(
                contents,
                change,
            ),
        forall|i: int|
            0 <= i < later.len() && concerns(#[trigger] later[i], session_id, key) ==> !(
            later[i] is Put),
    ensures
        looked_up(kept(changed_by_all(before, later), session_id, key), now, ttl_secs) is None,
    decreases later.len(),
{
    if later.len() > 0 {
        assert forall|i: int|
            0 <= i < later.drop_last().len() && concerns(
                #[trigger] later.drop_last()[i],
                session_id,
                key,
            ) implies !(later.drop_last()[i] is Put) by {
            assert(later.drop_last()[i] == later[i]);
        }
        law_nothing_is_found_without_a_put(
            before,
            session_id,
            key,
            later.drop_last(),
            now,
            ttl_secs,
        );
        let last = later[later.len() - 1];
        assert(concerns(last, session_id, key) ==> !(last is Put));
    }
}

/// Whether a kept handle can be used again at its age.
pub open spec fn is_reusable(age_secs: u64) -> bool {
    age_secs < 30
}

/// Tells whether a kept handle can be used again at its age.
pub fn reusable_at_age(age_secs: u64) -> (reusable: bool)
    ensures
        reusable == is_reusable(age_secs),
{
    age_secs < 30
}

/// What a lookup at some moment gives of a handle that was opened at another.
pub open spec fn reused<S>(
    handle: Option<S>,
    opened_at: tokio::time::Instant,
    now: tokio::time::Instant,
) -> Option<S> {
    match handle {
        Some(handle) => if is_reusable(seconds_between(now, opened_at)) {
            Some(handle)
        } else {
            None
        },
        None => None,
    }
}

/// A handle that was found, as a value.
pub open spec fn handle_view<S>(found: Option<&S>) -> Option<S> {
    match found {
        Some(handle) => Some(*handle),
        None => None,
    }
}

/// A handle to the files of a server, which is used again for a while after it was opened.
pub struct SftpCache<S> {
    entry: Option<(S, tokio::time::Instant)>,
}

impl<S> SftpCache<S> {
    /// The handle that is kept, whatever its age.
    pub closed spec fn handle(&self) -> Option<S> {
        match self.entry {
            Some((handle, _)) => Some(handle),
            None => None,
        }
    }

    /// The moment at which the kept handle was opened.
    pub closed spec fn opened_at(&self) -> tokio::time::Instant {
        (self.entry->0).1
    }

    /// No handle is kept yet.
    pub fn new() -> (cache: Self)
        ensures
            cache.handle() is None,
    {
        SftpCache { entry: None }
    }

    /// The kept handle, where it can be used again.
    pub fn get(&self) -> (found: Option<&S>)
        ensures
            exists|now: tokio::time::Instant|
                handle_view(found) == #[trigger] reused(self.handle(), self.opened_at(), now),
    {
        let now = clock_now();
        let found = self.get_at(&now);
        assert(handle_view(found) == reused(self.handle(), self.opened_at(), now));
        found
    }

    /// The kept handle, where it can be used again at some moment.
    pub fn get_at(&self, now: &tokio::time::Instant) -> (found: Option<&S>)
        ensures
            handle_view(found) == reused(self.handle(), self.opened_at(), *now),
    {
        match &self.entry {
            Some((handle, opened_at)) => {
                let age: u64 = count_seconds(now, opened_at);
                if reusable_at_age(age) {
                    Some(handle)
                } else {
                    None
                }
            },
            None => None,
        }
    }

    /// Keeps a handle that was just opened, in place of the one before. It is kept from the
    /// moment that the clock shows.
    pub fn put(&mut self, handle: S)
        ensures
            final(self).handle() == Some(handle),
    {
        let now = clock_now();
        self.put_at(handle, now);
    }

    /// Keeps a handle that was opened at some moment, in place of the one before.
    pub fn put_at(&mut self, handle: S, now: tokio::time::Instant)
        ensures
            final(self).handle() == Some(handle),
            final(self).opened_at() == now,
    {
        self.entry = Some((handle, now));
    }

    /// Forgets the kept handle.
    pub fn reset(&mut self)
        ensures
            final(self).handle() is None,
    {
        self.entry = None;
    }
}

/// A kept handle is given again exactly while fewer than 30 whole seconds have passed since it was
/// opened.
pub proof fn law_handle_is_reused_for_a_while<S>(
    handle: S,
    opened_at: tokio::time::Instant,
    now: tokio::time::Instant,
)
    ensures
        reused(Some(handle), opened_at, now) == if seconds_between(now, opened_at) < 30 {
            Some(handle)
        } else {
            None
        },
        reused(None::<S>, opened_at, now) is None,
{
}

/// What is found says its text, a handle that is found says itself, and keys say their
/// characters, in their order.
pub proof fn law_lookups_say_what_they_hold<S>(
    found: Option<String>,
    handle: Option<&S>,
    keys: Seq<&str>,
)
    ensures
        found matches Some(text) ==> found_view(found) == Some(text@),
        found is None ==> found_view(found) is None,
        handle matches Some(kept) ==> handle_view(handle) == Some(*kept),
        handle is None ==> handle_view(handle) is None,
        key_texts(keys).len() == keys.len(),
        forall|i: int| 0 <= i < keys.len() ==> #[trigger] key_texts(keys)[i] == keys[i]@,
{
}

} // verus!
