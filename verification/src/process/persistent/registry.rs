//! The persistent processes of one capsule.
//!
//! A process is found under a keyed digest of its id, and only by the principal and the capsule
//! that started it. Whatever else is wrong with a request, the answer to anyone but the owner is
//! that there is no such process.

use vstd::prelude::*;
use vstd::utf8::encode_utf8;

use crate::digest::{keyed_digest, keyed_digest_of, KEY_BYTES};
use crate::entropy::{may_draw, RandomSource};
use crate::names::{count_in, lemma_count, listing, NameMap};
use crate::process::persistent::config::{
    clamp_label, clamp_log_ring, least, longest_fit, overflow_from_wit, printable, resolve_ttls,
    ring_capacity, stop_grace, DEFAULT_EXIT_RETENTION_MS, DEFAULT_IDLE_TIMEOUT_MS,
    DEFAULT_STOP_GRACE_MS, MAX_EXIT_RETENTION_MS, MAX_LABEL_BYTES, MAX_LIFETIME_MS,
    MAX_READ_SINCE_BYTES, MAX_REGISTRY_ENTRIES, MAX_RETAINED_PER_PRINCIPAL, MAX_STDIN_WRITE,
    MAX_STOP_GRACE_MS,
};
use crate::process::persistent::entry::{
    describes, exit_info, shown_exit, EntryView, ExitRecord, PersistentEntry, Phase, ProcessCore,
};
use crate::process::persistent::ids::{base32, has_id_form, mint_from, minted_from, ID_BYTES};
use crate::process::persistent::ring::{
    cursor_token, decode_cursor, decoded, encode_cursor, LogRing, Overflow, RingView,
    MAX_STREAM_OFFSET,
};
use crate::process::types::{
    ErrorCode, ExitInfo, LogChunk, LogCursor, LogStream, OverflowPolicy, ProcessInfo,
    ReadLogsResult,
};
use crate::text::{contains_text, lossy, lossy_text, occurs_in, opt_view, str_eq};

verus! {

/// How many ids are tried before a start is given up for want of a free one.
pub const ID_ATTEMPTS: usize = 9;

/// A freshly started child, and what it was asked for with.
pub struct SpawnParams {
    pub creator: String,
    pub capsule_id: String,
    pub command: String,
    pub os_pid: u32,
    /// Whether a pipe to the child is kept.
    pub stdin: bool,
    /// How many processes of the creator may run at a time.
    pub concurrent_cap: usize,
    pub label: Option<String>,
    pub overflow: Option<OverflowPolicy>,
    pub log_ring_bytes: Option<u32>,
    pub max_lifetime_ms: Option<u64>,
    pub idle_timeout_ms: Option<u64>,
    pub exit_retention_ms: Option<u64>,
}

/// The registry of one capsule.
pub struct PersistentProcessRegistry {
    entries: NameMap<PersistentEntry>,
    hash_key: Vec<u8>,
    /// Where the key came from, and where the ids come from.
    source: RandomSource,
}

/// The registry as a value: its key, the processes under the digests of their ids, and every answer
/// that it got when it asked for random bytes.
pub struct RegistryView {
    pub key: Seq<u8>,
    pub entries: Map<Seq<char>, EntryView>,
    pub drawn: Seq<Result<Vec<u8>, String>>,
}

/// The code says that no free id was found.
pub open spec fn says_exhausted(code: ErrorCode) -> bool {
    code is Unknown && code->Unknown_0@ == "process-id collision space exhausted"@
}

/// The code says that there were no random bytes.
pub open spec fn says_no_entropy(code: ErrorCode) -> bool {
    code is Unknown && code->Unknown_0@ == "OS CSPRNG unavailable while minting process id"@
}

/// What became of waiting for an exit.
#[derive(Debug, Clone, Copy, PartialEq, Eq, Structural)]
pub enum WaitOutcome {
    /// The process exited.
    Exited(ExitRecord),
    /// Nobody will report the exit any more.
    ChannelClosed,
    /// The time was up.
    TimedOut,
}

/// What waiting for a process comes to.
#[derive(Debug, Clone, Copy, PartialEq, Eq, Structural)]
pub enum WaitStep {
    /// The process has exited.
    Ready(ExitInfo),
    /// The exit has to be waited for.
    Await,
}

/// A process that is being stopped.
pub struct StopPlan {
    pub key: String,
    pub os_pid: u32,
    pub grace_ms: u64,
    pub exit: Option<ExitRecord>,
}

/// The next thing to do to a process that is being stopped.
#[derive(Debug, Clone, Copy, PartialEq, Eq, Structural)]
pub enum StopAction {
    /// Ask the process to end, and wait for so long.
    Terminate(u32, u64),
    /// Kill the process, and wait for so long.
    Kill(u32, u64),
    /// The process is to be forgotten; this is how it ended.
    Finish(ExitInfo),
}

/// A process that was forgotten, so that what is left of it can be ended.
pub struct Reaped {
    pub key: String,
    pub os_pid: u32,
}

/// The views of the processes in a map.
pub open spec fn entry_views(map: Map<Seq<char>, PersistentEntry>) -> Map<Seq<char>, EntryView> {
    Map::new(|key: Seq<char>| map.contains_key(key), |key: Seq<char>| map[key]@)
}

/// The process that a start puts into the registry.
pub open spec fn started(p: SpawnParams, id: Seq<char>, now: u64, entry: EntryView) -> bool {
    let cap = ring_capacity(p.log_ring_bytes);
    let overflow = if p.overflow == Some(OverflowPolicy::Backpressure) {
        Overflow::Backpressure
    } else {
        Overflow::DropOldest
    };
    let empty = RingView { bytes: Seq::empty(), front: 0, dropped: 0, cap, overflow };
    &&& entry.id == id
    &&& entry.creator == p.creator@
    &&& entry.capsule_id == p.capsule_id@
    &&& longest_fit(
        printable(
            match p.label {
                Some(text) => text@,
                None => p.command@,
            },
        ),
        MAX_LABEL_BYTES as int,
        entry.label,
    )
    &&& entry.command == p.command@
    &&& entry.os_pid == p.os_pid
    &&& entry.spawned_at == now
    &&& entry.max_lifetime == least(
        match p.max_lifetime_ms {
            Some(ms) => ms as int,
            None => MAX_LIFETIME_MS as int,
        },
        MAX_LIFETIME_MS as int,
    )
    &&& entry.idle_timeout == least(
        match p.idle_timeout_ms {
            Some(ms) => ms as int,
            None => DEFAULT_IDLE_TIMEOUT_MS as int,
        },
        MAX_LIFETIME_MS as int,
    )
    &&& entry.exit_retention == least(
        match p.exit_retention_ms {
            Some(ms) => ms as int,
            None => DEFAULT_EXIT_RETENTION_MS as int,
        },
        MAX_EXIT_RETENTION_MS as int,
    )
    &&& entry.phase == Phase::Running
    &&& entry.exit is None
    &&& entry.exited_at is None
    &&& entry.stdout == empty
    &&& entry.stderr == empty
    &&& entry.stdin_held == p.stdin
    &&& entry.stdin_open == p.stdin
    &&& entry.last_touch == now
}

impl RegistryView {
    /// Where a process with this id is kept.
    pub open spec fn slot(self, id: Seq<char>) -> Seq<char> {
        keyed_digest_of(self.key, encode_utf8(id))
    }

    /// A process is kept under this id, and it belongs to the caller.
    pub open spec fn grants(
        self,
        id: Seq<char>,
        principal: Seq<char>,
        capsule_id: Seq<char>,
    ) -> bool {
        self.entries.contains_key(self.slot(id)) && self.entries[self.slot(id)].owned_by(
            principal,
            capsule_id,
        )
    }

    /// The process with this id.
    pub open spec fn process(self, id: Seq<char>) -> EntryView {
        self.entries[self.slot(id)]
    }

    /// The registry with one process changed.
    pub open spec fn with(self, slot: Seq<char>, entry: EntryView) -> RegistryView {
        RegistryView { entries: self.entries.insert(slot, entry), ..self }
    }

    /// The registry with one process forgotten.
    pub open spec fn without(self, slot: Seq<char>) -> RegistryView {
        RegistryView { entries: self.entries.remove(slot), ..self }
    }

    /// The registry after a process was touched.
    pub open spec fn touched(self, id: Seq<char>, now: u64) -> RegistryView {
        self.with(self.slot(id), self.process(id).touched(now))
    }

    /// Where the processes of a principal are kept.
    pub open spec fn retained_slots(self, principal: Seq<char>) -> Set<Seq<char>> {
        Set::new(
            |slot: Seq<char>|
                self.entries.contains_key(slot) && self.entries[slot].creator == principal,
        )
    }

    /// Where the running processes of a principal are kept.
    pub open spec fn live_slots(self, principal: Seq<char>) -> Set<Seq<char>> {
        Set::new(
            |slot: Seq<char>|
                self.entries.contains_key(slot) && self.entries[slot].creator == principal
                    && self.entries[slot].is_live(),
        )
    }

    /// Why a principal that may run `cap` processes may not start another one now.
    pub open spec fn refusal(self, principal: Seq<char>, cap: int) -> Option<ErrorCode> {
        if self.entries.dom().len() >= MAX_REGISTRY_ENTRIES {
            Some(ErrorCode::RegistryFull)
        } else if self.retained_slots(principal).len() >= MAX_RETAINED_PER_PRINCIPAL {
            Some(ErrorCode::RegistryFull)
        } else if self.live_slots(principal).len() >= cap {
            Some(ErrorCode::Quota)
        } else {
            None
        }
    }

    /// The first `n` of the minted ids came, and all of them are taken.
    pub open spec fn all_taken(self, minted: Seq<Result<String, String>>, n: int) -> bool {
        forall|i: int|
            0 <= i < n ==> (#[trigger] minted[i]) is Ok && self.entries.contains_key(
                self.slot(minted[i]->Ok_0@),
            )
    }

    /// The minted id at `i` is the first that is not taken.
    pub open spec fn first_free(self, minted: Seq<Result<String, String>>, i: int) -> bool {
        &&& 0 <= i < minted.len()
        &&& self.all_taken(minted, i)
        &&& minted[i] is Ok
        &&& !self.entries.contains_key(self.slot(minted[i]->Ok_0@))
    }

    /// At `i` no id came, and all before it are taken.
    pub open spec fn first_missing(self, minted: Seq<Result<String, String>>, i: int) -> bool {
        &&& 0 <= i < minted.len()
        &&& self.all_taken(minted, i)
        &&& minted[i] is Err
    }

    /// The registry after it asked for random bytes and got these answers.
    pub open spec fn drew(self, drawn: Seq<Result<Vec<u8>, String>>) -> RegistryView {
        RegistryView { drawn: self.drawn + drawn, ..self }
    }

    /// The answer brought bytes, and the id that they make is taken.
    pub open spec fn collides(self, drawn: Result<Vec<u8>, String>) -> bool {
        drawn is Ok && self.entries.contains_key(self.slot(base32(drawn->Ok_0@)))
    }

    /// What the registry answers to a child that it does not refuse. It asks for the bytes of an id
    /// until an answer brings none or the id that they make is free, and no more often than ids are
    /// tried; the last answer decides. A free id is handed out, and the child is kept under it from
    /// then on. Where no bytes came, or where all the ids are taken, it says so and keeps nothing.
    pub open spec fn answers(
        self,
        p: SpawnParams,
        now: u64,
        r: Result<String, ErrorCode>,
        after: RegistryView,
    ) -> bool {
        let drawn = after.drawn.skip(self.drawn.len() as int);
        &&& after.drawn == self.drawn + drawn
        &&& 0 < drawn.len() <= ID_ATTEMPTS
        &&& forall|i: int| 0 <= i < drawn.len() ==> may_draw(ID_BYTES, #[trigger] drawn[i])
        &&& forall|i: int| 0 <= i < drawn.len() - 1 ==> self.collides(#[trigger] drawn[i])
        &&& match drawn.last() {
            Err(_) => {
                &&& r is Err
                &&& says_no_entropy(r->Err_0)
                &&& after == self.drew(drawn)
            },
            Ok(bytes) => if self.collides(drawn.last()) {
                &&& drawn.len() == ID_ATTEMPTS
                &&& r is Err
                &&& says_exhausted(r->Err_0)
                &&& after == self.drew(drawn)
            } else {
                &&& r is Ok
                &&& r->Ok_0@ == base32(bytes@)
                &&& has_id_form(r->Ok_0@)
                &&& exists|entry: EntryView| #[trigger]
                    started(p, r->Ok_0@, now, entry) && after == self.drew(drawn).with(
                        self.slot(r->Ok_0@),
                        entry,
                    )
            },
        }
    }

    /// The processes that are not due to be forgotten.
    pub open spec fn swept(self, now: u64) -> RegistryView {
        RegistryView {
            entries: self.entries.restrict(
                Set::new(
                    |slot: Seq<char>|
                        self.entries.contains_key(slot) && !self.entries[slot].is_due(now),
                ),
            ),
            ..self
        }
    }

    /// Every process is consistent and kept under the digest of its id, and there are no more
    /// than there may be.
    pub open spec fn valid(self) -> bool {
        &&& self.key.len() == KEY_BYTES
        &&& self.entries.dom().finite()
        &&& self.entries.dom().len() <= MAX_REGISTRY_ENTRIES
        &&& forall|slot: Seq<char>|
            self.entries.contains_key(slot) ==> {
                &&& (#[trigger] self.entries[slot]).valid()
                &&& self.slot(self.entries[slot].id) == slot
            }
    }
}

impl View for PersistentProcessRegistry {
    type V = RegistryView;

    closed spec fn view(&self) -> RegistryView {
        RegistryView {
            key: self.hash_key@,
            entries: entry_views(self.entries@),
            drawn: self.source@,
        }
    }
}

/// Changing a map changes its views alike.
proof fn lemma_views(
    map: Map<Seq<char>, PersistentEntry>,
    slot: Seq<char>,
    entry: PersistentEntry,
)
    ensures
        entry_views(map.insert(slot, entry)) == entry_views(map).insert(slot, entry@),
        entry_views(map.remove(slot)) == entry_views(map).remove(slot),
        entry_views(map).dom() == map.dom(),
{
    assert(entry_views(map.insert(slot, entry)) =~= entry_views(map).insert(slot, entry@));
    assert(entry_views(map.remove(slot)) =~= entry_views(map).remove(slot));
    assert(entry_views(map).dom() =~= map.dom());
}

/// Changing a process in a way that keeps it consistent and keeps its id keeps the registry
/// consistent; so does forgetting one.
proof fn lemma_stays_valid(view: RegistryView, slot: Seq<char>, entry: EntryView)
    requires
        view.valid(),
        view.entries.contains_key(slot),
    ensures
        entry.valid() && entry.id == view.entries[slot].id ==> view.with(slot, entry).valid(),
        view.without(slot).valid(),
{
    let with = view.with(slot, entry);
    let without = view.without(slot);
    assert(with.entries.dom() =~= view.entries.dom());
    if entry.valid() && entry.id == view.entries[slot].id {
        assert forall|s: Seq<char>| with.entries.contains_key(s) implies {
            &&& (#[trigger] with.entries[s]).valid()
            &&& with.slot(with.entries[s].id) == s
        } by {
            if s != slot {
                assert(view.entries[s].valid());
            } else {
                assert(view.slot(view.entries[slot].id) == slot);
            }
        }
    }
    assert forall|s: Seq<char>| without.entries.contains_key(s) implies {
        &&& (#[trigger] without.entries[s]).valid()
        &&& without.slot(without.entries[s].id) == s
    } by {
        assert(view.entries[s].valid());
    }
}

impl PersistentProcessRegistry {
    /// An empty registry with a fresh random key. There is none only where no random bytes were to
    /// be had, and then for the same reason.
    pub fn new() -> (r: Result<Self, String>)
        ensures
            exists|drawn: Result<Vec<u8>, String>| #[trigger]
                may_draw(KEY_BYTES, drawn) && match drawn {
                    Ok(key) => {
                        &&& r is Ok
                        &&& r->Ok_0@.key == key@
                        &&& r->Ok_0@.entries == Map::<Seq<char>, EntryView>::empty()
                        &&& r->Ok_0@.drawn == seq![drawn]
                        &&& r->Ok_0@.valid()
                    },
                    Err(reason) => r == Err::<Self, String>(reason),
                },
    {
        let mut source = RandomSource::new();
        let drawn = source.draw(KEY_BYTES);
        assert(may_draw(KEY_BYTES, drawn));
        assert(source@ =~= seq![drawn]);
        match drawn {
            Ok(hash_key) => {
                let registry = PersistentProcessRegistry {
                    entries: NameMap::new(),
                    hash_key,
                    source,
                };
                assert(registry@.entries =~= Map::<Seq<char>, EntryView>::empty());
                Ok(registry)
            },
            Err(reason) => Err(reason),
        }
    }

    /// Where a process with this id is kept.
    fn key_of(&self, id: &str) -> (key: String)
        requires
            self@.valid(),
        ensures
            key@ == self@.slot(id@),
    {
        keyed_digest(self.hash_key.as_slice(), id.as_bytes())
    }

    /// Where the process with this id is kept, if it belongs to the caller.
    fn locate(&self, id: &str, principal: &str, capsule_id: &str) -> (r: Result<String, ErrorCode>)
        requires
            self@.valid(),
        ensures
            match r {
                Ok(key) => self@.grants(id@, principal@, capsule_id@) && key@ == self@.slot(id@),
                Err(code) => !self@.grants(id@, principal@, capsule_id@) && code
                    == ErrorCode::NoSuchProcess,
            },
    {
        let key = self.key_of(id);
        match self.kept(key.as_str()) {
            Some(entry) => {
                if str_eq(entry.creator.as_str(), principal) && str_eq(
                    entry.capsule_id.as_str(),
                    capsule_id,
                ) {
                    Ok(key)
                } else {
                    Err(ErrorCode::NoSuchProcess)
                }
            },
            None => Err(ErrorCode::NoSuchProcess),
        }
    }

    /// The process kept under `key`.
    fn kept(&self, key: &str) -> (entry: Option<&PersistentEntry>)
        ensures
            match entry {
                Some(e) => self@.entries.contains_key(key@) && e@ == self@.entries[key@],
                None => !self@.entries.contains_key(key@),
            },
    {
        self.entries.get(key)
    }

    /// Takes a process out for a change.
    fn take(&mut self, key: &str) -> (entry: Option<PersistentEntry>)
        requires
            old(self)@.valid(),
        ensures
            final(self)@ == old(self)@.without(key@),
            match entry {
                Some(e) => old(self)@.entries.contains_key(key@) && e@
                    == old(self)@.entries[key@],
                None => !old(self)@.entries.contains_key(key@),
            },
    {
        let ghost before = self.entries@;
        let entry = self.entries.remove(key);
        proof {
            if entry is Some {
                lemma_views(before, key@, entry->Some_0);
            } else {
                assert(entry_views(before.remove(key@)) =~= entry_views(before).remove(key@));
            }
        }
        entry
    }

    /// Puts a process in.
    fn put(&mut self, key: String, entry: PersistentEntry)
        ensures
            final(self)@ == old(self)@.with(key@, entry@),
    {
        proof {
            lemma_views(self.entries@, key@, entry);
        }
        self.entries.insert(key, entry);
    }

    /// Finds a process of the caller and notes that it was touched.
    pub fn resolve(&mut self, id: &str, principal: &str, capsule_id: &str, now: u64) -> (r: Result<
        String,
        ErrorCode,
    >)
        requires
            old(self)@.valid(),
        ensures
            final(self)@.valid(),
            match r {
                Ok(key) => {
                    &&& old(self)@.grants(id@, principal@, capsule_id@)
                    &&& key@ == old(self)@.slot(id@)
                    &&& final(self)@ == old(self)@.touched(id@, now)
                    &&& final(self)@.entries.contains_key(key@)
                    &&& final(self)@.entries[key@] == old(self)@.process(id@).touched(now)
                },
                Err(code) => {
                    &&& !old(self)@.grants(id@, principal@, capsule_id@)
                    &&& code == ErrorCode::NoSuchProcess
                    &&& final(self)@ == old(self)@
                },
            },
    {
        let ghost before = self@;
        match self.locate(id, principal, capsule_id) {
            Err(code) => Err(code),
            Ok(key) => {
                match self.take(key.as_str()) {
                    Some(mut entry) => {
                        proof {
                            assert(before.entries[key@].valid());
                            lemma_stays_valid(before, key@, entry@.touched(now));
                        }
                        entry.core.last_touch = now;
                        self.put(key.clone(), entry);
                        assert(self@.entries =~= before.touched(id@, now).entries);
                    },
                    None => {},
                }
                Ok(key)
            },
        }
    }

    /// How many processes of a principal run, and how many are kept in all.
    fn tally(&self, principal: &str) -> (r: (usize, usize))
        requires
            self@.valid(),
        ensures
            r.0 == self@.live_slots(principal@).len(),
            r.1 == self@.retained_slots(principal@).len(),
    {
        let n: usize = self.entries.size();
        let ghost keys = self.entries.keys();
        let ghost live_set = self@.live_slots(principal@);
        let ghost kept_set = self@.retained_slots(principal@);
        let mut live: usize = 0;
        let mut retained: usize = 0;
        let mut i: usize = 0;
        assert(keys.take(0) =~= Seq::<Seq<char>>::empty());
        while i < n
            invariant
                i <= n,
                n == keys.len(),
                keys == self.entries.keys(),
                live <= i,
                retained <= i,
                live_set == self@.live_slots(principal@),
                kept_set == self@.retained_slots(principal@),
                live == count_in(keys.take(i as int), live_set),
                retained == count_in(keys.take(i as int), kept_set),
            decreases n - i,
        {
            let pair = self.entries.entry_at(i);
            proof {
                assert(keys.take(i + 1).drop_last() =~= keys.take(i as int));
                assert(keys.take(i + 1).last() == keys[i as int]);
                assert(self@.entries[keys[i as int]] == pair.1@);
            }
            if str_eq(pair.1.creator.as_str(), principal) {
                retained += 1;
                if pair.1.is_live() {
                    live += 1;
                }
            }
            i += 1;
        }
        proof {
            assert(keys.take(n as int) =~= keys);
            assert(self@.entries.dom() =~= self.entries@.dom());
            lemma_count(keys, self@.entries.dom(), live_set);
            lemma_count(keys, self@.entries.dom(), kept_set);
            assert(self@.entries.dom().intersect(live_set) =~= live_set);
            assert(self@.entries.dom().intersect(kept_set) =~= kept_set);
        }
        (live, retained)
    }

    /// How many processes of a principal run.
    pub fn live_count(&self, principal: &str) -> (n: usize)
        requires
            self@.valid(),
        ensures
            n == self@.live_slots(principal@).len(),
    {
        self.tally(principal).0
    }

    /// Whether a principal may start another process now.
    pub fn may_start(&self, principal: &str, concurrent_cap: usize) -> (r: Result<(), ErrorCode>)
        requires
            self@.valid(),
        ensures
            match self@.refusal(principal@, concurrent_cap as int) {
                Some(code) => r == Err::<(), ErrorCode>(code),
                None => r is Ok,
            },
    {
        let size: usize = self.entries.size();
        proof {
            let keys = self.entries.keys();
            let dom = self@.entries.dom();
            assert(dom =~= self.entries@.dom());
            lemma_count(keys, dom, dom);
            assert(dom.intersect(dom) =~= dom);
            lemma_count_all(keys, dom);
        }
        if size >= MAX_REGISTRY_ENTRIES {
            return Err(ErrorCode::RegistryFull);
        }
        let (live, retained) = self.tally(principal);
        if retained >= MAX_RETAINED_PER_PRINCIPAL {
            return Err(ErrorCode::RegistryFull);
        }
        if live >= concurrent_cap {
            return Err(ErrorCode::Quota);
        }
        Ok(())
    }

    /// Puts a started child into the registry under `id`, unless the id is taken.
    pub fn insert_as(&mut self, p: SpawnParams, id: &str, now: u64) -> (inserted: bool)
        requires
            old(self)@.valid(),
            old(self)@.entries.dom().len() < MAX_REGISTRY_ENTRIES,
        ensures
            final(self)@.valid(),
            inserted == !old(self)@.entries.contains_key(old(self)@.slot(id@)),
            !inserted ==> final(self)@ == old(self)@,
            inserted ==> exists|entry: EntryView|
                #[trigger] started(p, id@, now, entry) && final(self)@ == old(self)@.with(
                    old(self)@.slot(id@),
                    entry,
                ),
    {
        let ghost before = self@;
        let key = self.key_of(id);
        if self.entries.contains(key.as_str()) {
            return false;
        }
        let ghost asked = p;
        let label = clamp_label(p.label, p.command.as_str());
        let cap: usize = clamp_log_ring(p.log_ring_bytes);
        let overflow = overflow_from_wit(p.overflow);
        let ttls = resolve_ttls(p.max_lifetime_ms, p.idle_timeout_ms, p.exit_retention_ms);
        let entry = PersistentEntry {
            id: id.to_owned(),
            creator: p.creator,
            capsule_id: p.capsule_id,
            label,
            command: p.command,
            os_pid: p.os_pid,
            spawned_at: now,
            max_lifetime: ttls.0,
            idle_timeout: ttls.1,
            exit_retention: ttls.2,
            core: ProcessCore {
                phase: Phase::Running,
                exit: None,
                exited_at: None,
                stdout: LogRing::new(cap, overflow),
                stderr: LogRing::new(cap, overflow),
                stdin_held: p.stdin,
                stdin_open: p.stdin,
                last_touch: now,
            },
        };
        let ghost view = entry@;
        self.put(key, entry);
        proof {
            assert(started(asked, id@, now, view));
            let after = self@;
            assert(after.entries.dom() =~= before.entries.dom().insert(before.slot(id@)));
            assert forall|s: Seq<char>| after.entries.contains_key(s) implies {
                &&& (#[trigger] after.entries[s]).valid()
                &&& after.slot(after.entries[s].id) == s
            } by {
                if s != before.slot(id@) {
                    assert(before.entries[s].valid());
                }
            }
        }
        true
    }

    /// The id for a child, of those that were minted for it in this order: the first that is not
    /// taken. There is none where an id did not come, or where as many as are tried are all taken;
    /// where fewer are taken, another one is to be minted.
    pub fn settle_id(&self, minted: &Vec<Result<String, String>>) -> (r: Option<
        Result<String, ErrorCode>,
    >)
        requires
            self@.valid(),
        ensures
            match r {
                Some(Ok(id)) => exists|i: int| #[trigger]
                    self@.first_free(minted@, i) && minted@[i] == Ok::<String, String>(id),
                Some(Err(code)) => {
                    ||| says_no_entropy(code) && exists|i: int| self@.first_missing(minted@, i)
                    ||| says_exhausted(code) && minted@.len() >= ID_ATTEMPTS && self@.all_taken(
                        minted@,
                        minted@.len() as int,
                    )
                },
                None => minted@.len() < ID_ATTEMPTS && self@.all_taken(
                    minted@,
                    minted@.len() as int,
                ),
            },
    {
        let mut i: usize = 0;
        while i < minted.len()
            invariant
                i <= minted@.len(),
                self@.valid(),
                self@.all_taken(minted@, i as int),
            decreases minted.len() - i,
        {
            match &minted[i] {
                Err(_) => {
                    assert(self@.first_missing(minted@, i as int));
                    return Some(
                        Err(
                            ErrorCode::Unknown(
                                "OS CSPRNG unavailable while minting process id".to_owned(),
                            ),
                        ),
                    );
                },
                Ok(id) => {
                    let key = self.key_of(id.as_str());
                    if self.kept(key.as_str()).is_none() {
                        assert(self@.first_free(minted@, i as int));
                        return Some(Ok(id.clone()));
                    }
                },
            }
            i += 1;
        }
        if minted.len() >= ID_ATTEMPTS {
            return Some(
                Err(ErrorCode::Unknown("process-id collision space exhausted".to_owned())),
            );
        }
        None
    }

    /// Takes a freshly started child in and gives it an id. The child is refused when the
    /// registry is full, when its creator keeps too many ids, or when its creator runs too many
    /// processes, in this order. Ids are drawn at random until one is free; should as many as are
    /// tried all be taken, or should there be no random bytes, the child is refused too.
    pub fn spawn(&mut self, p: SpawnParams, now: u64) -> (r: Result<String, ErrorCode>)
        requires
            old(self)@.valid(),
        ensures
            final(self)@.valid(),
            match old(self)@.refusal(p.creator@, p.concurrent_cap as int) {
                Some(code) => r == Err::<String, ErrorCode>(code) && final(self)@ == old(self)@,
                None => old(self)@.answers(p, now, r, final(self)@),
            },
    {
        match self.may_start(p.creator.as_str(), p.concurrent_cap) {
            Err(code) => {
                return Err(code);
            },
            Ok(()) => {},
        }
        let ghost before = self@;
        let ghost mut drawn: Seq<Result<Vec<u8>, String>> = Seq::empty();
        let mut minted: Vec<Result<String, String>> = Vec::new();
        assert(before.drew(drawn).drawn =~= before.drawn);
        loop
            invariant
                minted@.len() < ID_ATTEMPTS,
                drawn.len() == minted@.len(),
                self@ == before.drew(drawn),
                before.valid(),
                before.refusal(p.creator@, p.concurrent_cap as int) is None,
                before == old(self)@,
                self@.all_taken(minted@, minted@.len() as int),
                forall|i: int|
                    0 <= i < drawn.len() ==> may_draw(ID_BYTES, #[trigger] drawn[i])
                        && minted_from(drawn[i], minted@[i]) && before.collides(drawn[i]),
            decreases ID_ATTEMPTS - minted.len(),
        {
            let ghost earlier = drawn;
            let ghost taken = minted@;
            let id = mint_from(&mut self.source);
            proof {
                let answer = self.source@.last();
                drawn = earlier.push(answer);
                assert(self.source@ =~= (before.drawn + earlier).push(answer));
                assert(self@.drawn =~= before.drawn + drawn);
                assert(self@.drawn.skip(before.drawn.len() as int) =~= drawn);
            }
            minted.push(id);
            proof {
                assert forall|i: int| 0 <= i < drawn.len() implies may_draw(
                    ID_BYTES,
                    #[trigger] drawn[i],
                ) && minted_from(drawn[i], minted@[i]) by {
                    if i < earlier.len() {
                        assert(drawn[i] == earlier[i] && minted@[i] == taken[i]);
                    }
                }
                assert forall|i: int| 0 <= i < drawn.len() - 1 implies before.collides(
                    #[trigger] drawn[i],
                ) by {
                    assert(drawn[i] == earlier[i]);
                }
                assert(minted_from(drawn[drawn.len() - 1], minted@[drawn.len() - 1]));
                assert forall|i: int| 0 <= i < taken.len() implies (#[trigger] minted@[i]) is Ok
                    && self@.entries.contains_key(self@.slot(minted@[i]->Ok_0@)) by {
                    assert(minted@[i] == taken[i]);
                }
            }
            match self.settle_id(&minted) {
                Some(Ok(id)) => {
                    proof {
                        let i = choose|i: int| #[trigger]
                            self@.first_free(minted@, i) && minted@[i] == Ok::<String, String>(id);
                        assert(i == taken.len());
                    }
                    let _ = self.insert_as(p, id.as_str(), now);
                    return Ok(id);
                },
                Some(Err(code)) => {
                    proof {
                        if exists|i: int| self@.first_missing(minted@, i) {
                            let i = choose|i: int| self@.first_missing(minted@, i);
                            assert(i == taken.len());
                        } else {
                            assert(minted@[taken.len() as int] is Ok);
                        }
                    }
                    return Err(code);
                },
                None => {
                    assert(minted@[taken.len() as int] is Ok);
                },
            }
        }
    }

    /// What there is to tell of a process of the caller. Looking does not touch the process.
    pub fn status(&self, id: &str, principal: &str, capsule_id: &str, now: u64) -> (r: Result<
        ProcessInfo,
        ErrorCode,
    >)
        requires
            self@.valid(),
        ensures
            match r {
                Ok(info) => self@.grants(id@, principal@, capsule_id@) && describes(
                    info,
                    self@.process(id@),
                    now,
                ),
                Err(code) => !self@.grants(id@, principal@, capsule_id@) && code
                    == ErrorCode::NoSuchProcess,
            },
    {
        match self.locate(id, principal, capsule_id) {
            Err(code) => Err(code),
            Ok(key) => match self.kept(key.as_str()) {
                Some(entry) => {
                    assert(self@.entries[key@].valid());
                    Ok(entry.info(now))
                },
                None => Err(ErrorCode::NoSuchProcess),
            },
        }
    }

    /// What there is to tell of each of the processes `ids` that belong to the caller, in the
    /// order of `ids`. The others are left out.
    pub fn status_many(
        &self,
        ids: &Vec<String>,
        principal: &str,
        capsule_id: &str,
        now: u64,
    ) -> (infos: Vec<ProcessInfo>)
        requires
            self@.valid(),
        ensures
            tells_of(infos@, granted_ids(self@, ids@, principal@, capsule_id@), self@, now),
    {
        let mut infos: Vec<ProcessInfo> = Vec::new();
        let mut i: usize = 0;
        assert(ids@.take(0) =~= Seq::<String>::empty());
        while i < ids.len()
            invariant
                i <= ids@.len(),
                self@.valid(),
                tells_of(
                    infos@,
                    granted_ids(self@, ids@.take(i as int), principal@, capsule_id@),
                    self@,
                    now,
                ),
            decreases ids.len() - i,
        {
            assert(ids@.take(i + 1).drop_last() =~= ids@.take(i as int));
            match self.status(ids[i].as_str(), principal, capsule_id, now) {
                Ok(info) => {
                    infos.push(info);
                },
                Err(_) => {},
            }
            i += 1;
        }
        assert(ids@.take(ids@.len() as int) =~= ids@);
        infos
    }

    /// What there is to tell of the processes of the caller, or of those whose label holds the
    /// filter, each once.
    pub fn list(&self, principal: &str, capsule_id: &str, label_filter: Option<&str>, now: u64) -> (r:
        Vec<ProcessInfo>)
        requires
            self@.valid(),
        ensures
            exists|slots: Seq<Seq<char>>|
                {
                    &&& #[trigger] listing(
                        slots,
                        listed_slots(
                            self@,
                            principal@,
                            capsule_id@,
                            opt_view(label_filter),
                        ),
                    )
                    &&& r@.len() == slots.len()
                    &&& forall|i: int|
                        0 <= i < r@.len() ==> describes(
                            #[trigger] r@[i],
                            self@.entries[slots[i]],
                            now,
                        )
                },
    {
        let n: usize = self.entries.size();
        let ghost keys = self.entries.keys();
        let ghost filter: Option<Seq<char>> = opt_view(label_filter);
        let ghost wanted = listed_slots(self@, principal@, capsule_id@, filter);
        let ghost mut slots: Seq<Seq<char>> = Seq::empty();
        let mut infos: Vec<ProcessInfo> = Vec::new();
        let mut i: usize = 0;
        while i < n
            invariant
                i <= n,
                n == keys.len(),
                keys == self.entries.keys(),
                keys.no_duplicates(),
                self@.valid(),
                filter == opt_view(label_filter),
                wanted == listed_slots(self@, principal@, capsule_id@, filter),
                infos@.len() == slots.len(),
                slots.no_duplicates(),
                forall|k: int|
                    0 <= k < slots.len() ==> wanted.contains(#[trigger] slots[k]) && exists|j: int|
                        0 <= j < i && keys[j] == slots[k],
                forall|j: int|
                    0 <= j < i && wanted.contains(#[trigger] keys[j]) ==> slots.contains(keys[j]),
                forall|k: int|
                    0 <= k < infos@.len() ==> describes(
                        #[trigger] infos@[k],
                        self@.entries[slots[k]],
                        now,
                    ),
            decreases n - i,
        {
            let pair = self.entries.entry_at(i);
            let ghost key = keys[i as int];
            proof {
                assert(self@.entries[key] == pair.1@);
                assert(self@.entries[key].valid());
            }
            let labelled: bool = match label_filter {
                Some(f) => contains_text(pair.1.label.as_str(), f),
                None => true,
            };
            if str_eq(pair.1.creator.as_str(), principal) && str_eq(
                pair.1.capsule_id.as_str(),
                capsule_id,
            ) && labelled {
                let ghost old_slots = slots;
                infos.push(pair.1.info(now));
                proof {
                    slots = slots.push(key);
                    assert(slots[old_slots.len() as int] == key);
                    assert forall|k: int| 0 <= k < slots.len() implies wanted.contains(
                        #[trigger] slots[k],
                    ) && exists|j: int| 0 <= j < i + 1 && keys[j] == slots[k] by {
                        if k < old_slots.len() {
                            assert(slots[k] == old_slots[k]);
                        } else {
                            assert(keys[i as int] == slots[k]);
                        }
                    }
                    assert forall|a: int, b: int|
                        0 <= a < slots.len() && 0 <= b < slots.len() && a != b implies slots[a]
                        != slots[b] by {
                        if a < old_slots.len() && b < old_slots.len() {
                            assert(old_slots[a] != old_slots[b]);
                        } else if a < old_slots.len() {
                            let j = choose|j: int| 0 <= j < i && keys[j] == old_slots[a];
                            assert(wanted.contains(old_slots[a]));
                            assert(keys[j] != keys[i as int]);
                        } else {
                            let j = choose|j: int| 0 <= j < i && keys[j] == old_slots[b];
                            assert(wanted.contains(old_slots[b]));
                            assert(keys[j] != keys[i as int]);
                        }
                    }
                    assert forall|j: int|
                        0 <= j < i + 1 && wanted.contains(#[trigger] keys[j]) implies slots.contains(
                        keys[j],
                    ) by {
                        if j < i {
                            let k = choose|k: int|
                                0 <= k < old_slots.len() && old_slots[k] == keys[j];
                            assert(old_slots.contains(keys[j]));
                            assert(slots[k] == keys[j]);
                        } else {
                            assert(slots[old_slots.len() as int] == keys[j]);
                        }
                    }
                    assert forall|k: int| 0 <= k < infos@.len() implies describes(
                        #[trigger] infos@[k],
                        self@.entries[slots[k]],
                        now,
                    ) by {
                        if k < old_slots.len() {
                            assert(slots[k] == old_slots[k]);
                        }
                    }
                }
            } else {
                assert(!wanted.contains(key));
            }
            i += 1;
        }
        proof {
            let dom = self@.entries.dom();
            assert(dom =~= self.entries@.dom());
            assert forall|slot: Seq<char>|
                #![trigger wanted.contains(slot)]
                wanted.contains(slot) <==> slots.contains(slot) by {
                if wanted.contains(slot) {
                    assert(self.entries@.dom().contains(slot));
                    let j = choose|j: int| 0 <= j < keys.len() && keys[j] == slot;
                    assert(wanted.contains(keys[j]));
                }
                if slots.contains(slot) {
                    let k = choose|k: int| 0 <= k < slots.len() && slots[k] == slot;
                    assert(wanted.contains(slots[k]));
                }
            }
            assert(listing(slots, wanted));
        }
        infos
    }

    /// Drains both streams of a process of the caller.
    pub fn read_logs(&mut self, id: &str, principal: &str, capsule_id: &str, now: u64) -> (r: Result<
        ReadLogsResult,
        ErrorCode,
    >)
        requires
            old(self)@.valid(),
        ensures
            final(self)@.valid(),
            match r {
                Ok(logs) => {
                    let before = old(self)@.process(id@);
                    &&& old(self)@.grants(id@, principal@, capsule_id@)
                    &&& logs.stdout@ == lossy_text(before.stdout.bytes)
                    &&& logs.stderr@ == lossy_text(before.stderr.bytes)
                    &&& logs.running == before.is_live()
                    &&& logs.exit == shown_exit(before.exit)
                    &&& final(self)@ == old(self)@.with(
                        old(self)@.slot(id@),
                        before.touched(now).drained(),
                    )
                },
                Err(code) => {
                    &&& !old(self)@.grants(id@, principal@, capsule_id@)
                    &&& code == ErrorCode::NoSuchProcess
                    &&& final(self)@ == old(self)@
                },
            },
    {
        let ghost before = self@;
        let key = match self.locate(id, principal, capsule_id) {
            Err(code) => {
                return Err(code);
            },
            Ok(key) => key,
        };
        match self.take(key.as_str()) {
            None => Err(ErrorCode::NoSuchProcess),
            Some(mut entry) => {
                let ghost view = entry@;
                assert(before.entries[key@].valid());
                entry.core.last_touch = now;
                let out = entry.core.stdout.drain();
                let err = entry.core.stderr.drain();
                let logs = ReadLogsResult {
                    stdout: lossy(out.as_slice()),
                    stderr: lossy(err.as_slice()),
                    running: entry.is_live(),
                    exit: exit_info(entry.core.exit),
                };
                proof {
                    assert(entry@ == view.touched(now).drained());
                    lemma_stays_valid(before, key@, entry@);
                }
                self.put(key, entry);
                assert(self@.entries =~= before.with(
                    before.slot(id@),
                    view.touched(now).drained(),
                ).entries);
                Ok(logs)
            },
        }
    }

    /// Reads one stream of a process of the caller from a cursor on, without draining it. The
    /// process counts as touched even when the cursor makes no sense.
    pub fn read_since(
        &mut self,
        id: &str,
        principal: &str,
        capsule_id: &str,
        which: LogStream,
        cursor: &LogCursor,
        max_bytes: u32,
        now: u64,
    ) -> (r: Result<LogChunk, ErrorCode>)
        requires
            old(self)@.valid(),
        ensures
            final(self)@.valid(),
            final(self)@ == (if old(self)@.grants(id@, principal@, capsule_id@) {
                old(self)@.touched(id@, now)
            } else {
                old(self)@
            }),
            match r {
                Ok(chunk) => {
                    let entry = old(self)@.process(id@);
                    let ring = entry.ring(which);
                    let max = least(max_bytes as int, MAX_READ_SINCE_BYTES as int);
                    &&& old(self)@.grants(id@, principal@, capsule_id@)
                    &&& decoded(*cursor) is Ok
                    &&& {
                        let at = decoded(*cursor)->Ok_0;
                        &&& chunk.data@ == ring.between(ring.start(at), ring.stop(at, max))
                        &&& chunk.next.token is Some
                        &&& chunk.next.token->Some_0@ == cursor_token(ring.stop(at, max) as u64)
                        &&& chunk.bytes_dropped == ring.missed(at)
                        &&& chunk.drained_eof == (!entry.is_live() && ring.stop(at, max)
                            >= ring.end())
                    }
                },
                Err(code) => code == ErrorCode::NoSuchProcess && (!old(self)@.grants(
                    id@,
                    principal@,
                    capsule_id@,
                ) || decoded(*cursor) is Err),
            },
    {
        let ghost before = self@;
        let key = match self.resolve(id, principal, capsule_id, now) {
            Err(code) => {
                return Err(code);
            },
            Ok(key) => key,
        };
        let wanted: usize = max_bytes as usize;
        let max: usize = if wanted <= MAX_READ_SINCE_BYTES {
            wanted
        } else {
            MAX_READ_SINCE_BYTES
        };
        let from = match decode_cursor(cursor) {
            Err(code) => {
                return Err(code);
            },
            Ok(from) => from,
        };
        match self.kept(key.as_str()) {
            None => Err(ErrorCode::NoSuchProcess),
            Some(entry) => {
                assert(self@.entries[key@] == before.process(id@).touched(now));
                let ring: &LogRing = match which {
                    LogStream::Stdout => &entry.core.stdout,
                    LogStream::Stderr => &entry.core.stderr,
                };
                proof {
                    assert(ring@ == before.process(id@).ring(which));
                    assert(max == least(max_bytes as int, MAX_READ_SINCE_BYTES as int));
                }
                let exited: bool = !entry.is_live();
                let (data, next, dropped) = ring.read_since(from, max);
                let drained_eof: bool = exited && next >= ring.end_offset();
                Ok(
                    LogChunk {
                        data,
                        next: encode_cursor(next),
                        bytes_dropped: dropped,
                        drained_eof,
                    },
                )
            },
        }
    }

    /// The process to which a signal of the caller goes; none if the process has exited, which
    /// is no error.
    pub fn signal(&mut self, id: &str, principal: &str, capsule_id: &str, now: u64) -> (r: Result<
        Option<u32>,
        ErrorCode,
    >)
        requires
            old(self)@.valid(),
        ensures
            final(self)@.valid(),
            match r {
                Ok(target) => {
                    let before = old(self)@.process(id@);
                    &&& old(self)@.grants(id@, principal@, capsule_id@)
                    &&& target == (if before.is_live() {
                        Some(before.os_pid)
                    } else {
                        None
                    })
                    &&& final(self)@ == old(self)@.touched(id@, now)
                },
                Err(code) => {
                    &&& !old(self)@.grants(id@, principal@, capsule_id@)
                    &&& code == ErrorCode::NoSuchProcess
                    &&& final(self)@ == old(self)@
                },
            },
    {
        let ghost before = self@;
        match self.resolve(id, principal, capsule_id, now) {
            Err(code) => Err(code),
            Ok(key) => match self.kept(key.as_str()) {
                None => Ok(None),
                Some(entry) => {
                    assert(self@.entries[key@] == before.process(id@).touched(now));
                    if entry.is_live() {
                        Ok(Some(entry.os_pid))
                    } else {
                        Ok(None)
                    }
                },
            },
        }
    }

    /// Begins a write to the input of a process of the caller: the pipe is taken out for the
    /// time of the write.
    pub fn begin_write(
        &mut self,
        id: &str,
        principal: &str,
        capsule_id: &str,
        len: usize,
        now: u64,
    ) -> (r: Result<String, ErrorCode>)
        requires
            old(self)@.valid(),
        ensures
            final(self)@.valid(),
            len > MAX_STDIN_WRITE ==> r == Err::<String, ErrorCode>(ErrorCode::TooLarge)
                && final(self)@ == old(self)@,
            len <= MAX_STDIN_WRITE ==> ({
                let entry = old(self)@.process(id@);
                if !old(self)@.grants(id@, principal@, capsule_id@) {
                    r == Err::<String, ErrorCode>(ErrorCode::NoSuchProcess) && final(self)@ == old(
                        self,
                    )@
                } else if !entry.stdin_held {
                    r == Err::<String, ErrorCode>(ErrorCode::Closed) && final(self)@ == old(
                        self,
                    )@.touched(id@, now)
                } else {
                    &&& r is Ok
                    &&& r->Ok_0@ == old(self)@.slot(id@)
                    &&& final(self)@ == old(self)@.with(
                        old(self)@.slot(id@),
                        (EntryView { stdin_held: false, ..entry.touched(now) }),
                    )
                }
            }),
    {
        if len > MAX_STDIN_WRITE {
            return Err(ErrorCode::TooLarge);
        }
        let ghost before = self@;
        let key = match self.resolve(id, principal, capsule_id, now) {
            Err(code) => {
                return Err(code);
            },
            Ok(key) => key,
        };
        let ghost touched = self@;
        proof {
            assert(before.entries[key@].valid());
            assert(touched.entries[key@] == before.process(id@).touched(now));
        }
        let open: bool = match self.kept(key.as_str()) {
            Some(entry) => {
                entry.core.stdin_open && entry.core.stdin_held
            },
            None => false,
        };
        if !open {
            return Err(ErrorCode::Closed);
        }
        match self.take(key.as_str()) {
            None => Err(ErrorCode::Closed),
            Some(mut entry) => {
                let ghost view = entry@;
                entry.core.stdin_held = false;
                proof {
                    lemma_stays_valid(touched, key@, entry@);
                }
                self.put(key.clone(), entry);
                assert(self@.entries =~= before.with(
                    before.slot(id@),
                    (EntryView { stdin_held: false, ..view }),
                ).entries);
                Ok(key)
            },
        }
    }

    /// Ends a write. The pipe goes back unless the input was closed meanwhile; a write that
    /// failed closes the input.
    pub fn finish_write(&mut self, key: &str, len: u32, written: bool) -> (r: Result<u32, ErrorCode>)
        requires
            old(self)@.valid(),
        ensures
            final(self)@.valid(),
            r == (if written {
                Ok::<u32, ErrorCode>(len)
            } else {
                Err::<u32, ErrorCode>(ErrorCode::Closed)
            }),
            final(self)@ == (if !old(self)@.entries.contains_key(key@) {
                old(self)@
            } else {
                let entry = old(self)@.entries[key@];
                if written && entry.stdin_open {
                    old(self)@.with(key@, (EntryView { stdin_held: true, ..entry }))
                } else if written {
                    old(self)@
                } else {
                    old(self)@.with(
                        key@,
                        (EntryView { stdin_held: false, stdin_open: false, ..entry }),
                    )
                }
            }),
    {
        let ghost before = self@;
        match self.take(key) {
            None => {
                assert(self@.entries =~= before.entries);
            },
            Some(mut entry) => {
                assert(before.entries[key@].valid());
                let ghost view = entry@;
                if written {
                    if entry.core.stdin_open {
                        entry.core.stdin_held = true;
                    }
                } else {
                    entry.core.stdin_open = false;
                    entry.core.stdin_held = false;
                }
                let ghost changed = entry@;
                proof {
                    lemma_stays_valid(before, key@, changed);
                }
                self.put(key.to_owned(), entry);
                assert(self@.entries =~= before.with(key@, changed).entries);
                assert(written && !view.stdin_open ==> self@.entries =~= before.entries);
            },
        }
        if written {
            Ok(len)
        } else {
            Err(ErrorCode::Closed)
        }
    }

    /// Closes the input of a process of the caller. Closing it again changes nothing more.
    pub fn close_stdin(&mut self, id: &str, principal: &str, capsule_id: &str, now: u64) -> (r: Result<
        (),
        ErrorCode,
    >)
        requires
            old(self)@.valid(),
        ensures
            final(self)@.valid(),
            match r {
                Ok(()) => {
                    &&& old(self)@.grants(id@, principal@, capsule_id@)
                    &&& final(self)@ == old(self)@.with(
                        old(self)@.slot(id@),
                        (EntryView {
                            stdin_held: false,
                            stdin_open: false,
                            ..old(self)@.process(id@).touched(now)
                        }),
                    )
                },
                Err(code) => {
                    &&& !old(self)@.grants(id@, principal@, capsule_id@)
                    &&& code == ErrorCode::NoSuchProcess
                    &&& final(self)@ == old(self)@
                },
            },
    {
        let ghost before = self@;
        let key = match self.locate(id, principal, capsule_id) {
            Err(code) => {
                return Err(code);
            },
            Ok(key) => key,
        };
        match self.take(key.as_str()) {
            None => {},
            Some(mut entry) => {
                assert(before.entries[key@].valid());
                entry.core.last_touch = now;
                entry.core.stdin_held = false;
                entry.core.stdin_open = false;
                let ghost changed = entry@;
                proof {
                    lemma_stays_valid(before, key@, changed);
                }
                self.put(key, entry);
                assert(self@.entries =~= before.with(before.slot(id@), changed).entries);
            },
        }
        Ok(())
    }

    /// Begins to wait for a process of the caller to exit.
    pub fn wait(&mut self, id: &str, principal: &str, capsule_id: &str, now: u64) -> (r: Result<
        WaitStep,
        ErrorCode,
    >)
        requires
            old(self)@.valid(),
        ensures
            final(self)@.valid(),
            match r {
                Ok(step) => {
                    &&& old(self)@.grants(id@, principal@, capsule_id@)
                    &&& step == (match old(self)@.process(id@).exit {
                        Some(record) => WaitStep::Ready(record.shown()),
                        None => WaitStep::Await,
                    })
                    &&& final(self)@ == old(self)@.touched(id@, now)
                },
                Err(code) => {
                    &&& !old(self)@.grants(id@, principal@, capsule_id@)
                    &&& code == ErrorCode::NoSuchProcess
                    &&& final(self)@ == old(self)@
                },
            },
    {
        let ghost before = self@;
        match self.resolve(id, principal, capsule_id, now) {
            Err(code) => Err(code),
            Ok(key) => match self.kept(key.as_str()) {
                None => Ok(WaitStep::Await),
                Some(entry) => {
                    assert(self@.entries[key@] == before.process(id@).touched(now));
                    match entry.core.exit {
                        Some(record) => Ok(WaitStep::Ready(record.to_info())),
                        None => Ok(WaitStep::Await),
                    }
                },
            },
        }
    }

    /// What waiting for an exit came to.
    pub fn wait_result(outcome: WaitOutcome) -> (r: Result<ExitInfo, ErrorCode>)
        ensures
            match outcome {
                WaitOutcome::Exited(record) => r == Ok::<ExitInfo, ErrorCode>(record.shown()),
                WaitOutcome::ChannelClosed => r is Err && r->Err_0 is Unknown
                    && r->Err_0->Unknown_0@ == "exit channel closed"@,
                WaitOutcome::TimedOut => r == Err::<ExitInfo, ErrorCode>(ErrorCode::WaitTimeout),
            },
    {
        match outcome {
            WaitOutcome::Exited(record) => Ok(record.to_info()),
            WaitOutcome::ChannelClosed => Err(ErrorCode::Unknown("exit channel closed".to_owned())),
            WaitOutcome::TimedOut => Err(ErrorCode::WaitTimeout),
        }
    }

    /// Begins to stop a process of the caller.
    pub fn stop(
        &mut self,
        id: &str,
        principal: &str,
        capsule_id: &str,
        grace_ms: Option<u64>,
        now: u64,
    ) -> (r: Result<StopPlan, ErrorCode>)
        requires
            old(self)@.valid(),
        ensures
            final(self)@.valid(),
            match r {
                Ok(plan) => {
                    let entry = old(self)@.process(id@);
                    &&& old(self)@.grants(id@, principal@, capsule_id@)
                    &&& plan.key@ == old(self)@.slot(id@)
                    &&& plan.os_pid == entry.os_pid
                    &&& plan.exit == entry.exit
                    &&& plan.grace_ms == least(
                        match grace_ms {
                            Some(asked) => asked as int,
                            None => DEFAULT_STOP_GRACE_MS as int,
                        },
                        MAX_STOP_GRACE_MS as int,
                    )
                    &&& final(self)@ == old(self)@.touched(id@, now)
                },
                Err(code) => {
                    &&& !old(self)@.grants(id@, principal@, capsule_id@)
                    &&& code == ErrorCode::NoSuchProcess
                    &&& final(self)@ == old(self)@
                },
            },
    {
        let ghost before = self@;
        match self.resolve(id, principal, capsule_id, now) {
            Err(code) => Err(code),
            Ok(key) => match self.kept(key.as_str()) {
                None => Err(ErrorCode::NoSuchProcess),
                Some(entry) => {
                    assert(self@.entries[key@] == before.process(id@).touched(now));
                    Ok(
                        StopPlan {
                            os_pid: entry.os_pid,
                            exit: entry.core.exit,
                            grace_ms: stop_grace(grace_ms),
                            key,
                        },
                    )
                },
            },
        }
    }

    /// The next thing to do to a process that is being stopped, given what came of waiting after
    /// it was asked to end and after it was killed. A process whose exit is never seen counts as
    /// killed.
    pub fn stop_next(
        plan: &StopPlan,
        after_terminate: Option<WaitOutcome>,
        after_kill: Option<WaitOutcome>,
    ) -> (action: StopAction)
        ensures
            action == (match (plan.exit, after_terminate, after_kill) {
                (Some(record), _, _) => StopAction::Finish(record.shown()),
                (None, None, _) => StopAction::Terminate(plan.os_pid, plan.grace_ms),
                (None, Some(WaitOutcome::Exited(record)), _) => StopAction::Finish(record.shown()),
                (None, Some(_), None) => StopAction::Kill(plan.os_pid, MAX_STOP_GRACE_MS),
                (None, Some(_), Some(WaitOutcome::Exited(record))) => StopAction::Finish(
                    record.shown(),
                ),
                (None, Some(_), Some(_)) => StopAction::Finish(
                    (ExitInfo { exit_code: None, signal: Some(9i32) }),
                ),
            }),
    {
        match plan.exit {
            Some(record) => StopAction::Finish(record.to_info()),
            None => match after_terminate {
                None => StopAction::Terminate(plan.os_pid, plan.grace_ms),
                Some(WaitOutcome::Exited(record)) => StopAction::Finish(record.to_info()),
                Some(_) => match after_kill {
                    None => StopAction::Kill(plan.os_pid, MAX_STOP_GRACE_MS),
                    Some(WaitOutcome::Exited(record)) => StopAction::Finish(record.to_info()),
                    Some(_) => StopAction::Finish(ExitInfo { exit_code: None, signal: Some(9) }),
                },
            },
        }
    }

    /// Forgets a process that was stopped. What is left of it has to be ended.
    pub fn finish_stop(&mut self, key: &str) -> (reaped: Option<Reaped>)
        requires
            old(self)@.valid(),
        ensures
            final(self)@.valid(),
            final(self)@ == old(self)@.without(key@),
            match reaped {
                Some(gone) => old(self)@.entries.contains_key(key@) && gone.key@ == key@
                    && gone.os_pid == old(self)@.entries[key@].os_pid,
                None => !old(self)@.entries.contains_key(key@),
            },
    {
        let ghost before = self@;
        match self.take(key) {
            Some(entry) => {
                proof {
                    lemma_stays_valid(before, key@, entry@);
                }
                Some(Reaped { key: key.to_owned(), os_pid: entry.os_pid })
            },
            None => {
                assert(self@.entries =~= before.entries);
                None
            },
        }
    }

    /// Forgets an exited process of the caller. A process that is not there is forgotten
    /// already; one that still runs cannot be forgotten.
    pub fn release(&mut self, id: &str, principal: &str, capsule_id: &str) -> (r: Result<
        Option<Reaped>,
        ErrorCode,
    >)
        requires
            old(self)@.valid(),
        ensures
            final(self)@.valid(),
            ({
                let slot = old(self)@.slot(id@);
                let entry = old(self)@.entries[slot];
                if !old(self)@.entries.contains_key(slot) {
                    r == Ok::<Option<Reaped>, ErrorCode>(None) && final(self)@ == old(self)@
                } else if !entry.owned_by(principal@, capsule_id@) {
                    r == Err::<Option<Reaped>, ErrorCode>(ErrorCode::NoSuchProcess) && final(self)@
                        == old(self)@
                } else if entry.is_live() {
                    r == Err::<Option<Reaped>, ErrorCode>(ErrorCode::InvalidInput) && final(self)@
                        == old(self)@
                } else {
                    &&& r is Ok
                    &&& r->Ok_0 is Some
                    &&& r->Ok_0->Some_0.key@ == slot
                    &&& r->Ok_0->Some_0.os_pid == entry.os_pid
                    &&& final(self)@ == old(self)@.without(slot)
                }
            }),
    {
        let key = self.key_of(id);
        match self.kept(key.as_str()) {
            None => {
                return Ok(None);
            },
            Some(entry) => {
                if !(str_eq(entry.creator.as_str(), principal) && str_eq(
                    entry.capsule_id.as_str(),
                    capsule_id,
                )) {
                    return Err(ErrorCode::NoSuchProcess);
                }
                if entry.is_live() {
                    return Err(ErrorCode::InvalidInput);
                }
            },
        }
        Ok(self.finish_stop(key.as_str()))
    }

    /// Forgets the processes that are due, and gives them out so that what is left of them can
    /// be ended.
    pub fn reap_sweep(&mut self, now: u64) -> (reaped: Vec<Reaped>)
        requires
            old(self)@.valid(),
        ensures
            final(self)@.valid(),
            final(self)@ == old(self)@.swept(now),
            gives_out(
                reaped@,
                old(self)@,
                Set::new(
                    |slot: Seq<char>|
                        old(self)@.entries.contains_key(slot) && old(self)@.entries[slot].is_due(
                            now,
                        ),
                ),
            ),
    {
        let ghost before = self@;
        let ghost due = Set::new(
            |slot: Seq<char>|
                before.entries.contains_key(slot) && before.entries[slot].is_due(now),
        );
        let keys = self.due_keys(now);
        let reaped = self.remove_all(&keys, Ghost(due));
        proof {
            assert(self@.entries =~= before.swept(now).entries);
        }
        reaped
    }

    /// Forgets every process, and gives them out so that what is left of them can be ended.
    pub fn shutdown(&mut self) -> (reaped: Vec<Reaped>)
        requires
            old(self)@.valid(),
        ensures
            final(self)@.valid(),
            final(self)@.entries == Map::<Seq<char>, EntryView>::empty(),
            final(self)@.key == old(self)@.key,
            final(self)@.drawn == old(self)@.drawn,
            gives_out(reaped@, old(self)@, old(self)@.entries.dom()),
    {
        let ghost before = self@;
        let keys = self.all_keys();
        let reaped = self.remove_all(&keys, Ghost(before.entries.dom()));
        assert(self@.entries =~= Map::<Seq<char>, EntryView>::empty());
        reaped
    }

    /// Where the processes that are due are kept.
    fn due_keys(&self, now: u64) -> (due: Vec<String>)
        requires
            self@.valid(),
        ensures
            lists_keys(
                due@,
                Set::new(
                    |slot: Seq<char>|
                        self@.entries.contains_key(slot) && self@.entries[slot].is_due(now),
                ),
            ),
    {
        let n: usize = self.entries.size();
        let ghost keys = self.entries.keys();
        let ghost wanted = Set::new(
            |slot: Seq<char>|
                self@.entries.contains_key(slot) && self@.entries[slot].is_due(now),
        );
        let mut due: Vec<String> = Vec::new();
        let mut i: usize = 0;
        while i < n
            invariant
                i <= n,
                n == keys.len(),
                keys == self.entries.keys(),
                keys.no_duplicates(),
                wanted == Set::new(
                    |slot: Seq<char>|
                        self@.entries.contains_key(slot) && self@.entries[slot].is_due(now),
                ),
                picked(due@, keys.take(i as int), wanted),
            decreases n - i,
        {
            let pair = self.entries.entry_at(i);
            proof {
                assert(self@.entries[keys[i as int]] == pair.1@);
                assert(keys.take(i + 1) =~= keys.take(i as int).push(keys[i as int]));
            }
            if pair.1.is_due(now) {
                let key = pair.0.clone();
                proof {
                    lemma_picked(due@, keys.take(i as int), wanted, key, keys, i as int);
                }
                due.push(key);
            } else {
                proof {
                    lemma_skipped(due@, keys.take(i as int), wanted, keys[i as int]);
                }
            }
            i += 1;
        }
        proof {
            assert(keys.take(n as int) =~= keys);
            assert(self@.entries.dom() =~= self.entries@.dom());
            lemma_lists(due@, keys, wanted, self@.entries.dom());
        }
        due
    }

    /// Where the processes are kept.
    fn all_keys(&self) -> (all: Vec<String>)
        requires
            self@.valid(),
        ensures
            lists_keys(all@, self@.entries.dom()),
    {
        let n: usize = self.entries.size();
        let ghost keys = self.entries.keys();
        let ghost wanted = self@.entries.dom();
        let mut all: Vec<String> = Vec::new();
        let mut i: usize = 0;
        while i < n
            invariant
                i <= n,
                n == keys.len(),
                keys == self.entries.keys(),
                keys.no_duplicates(),
                wanted == self@.entries.dom(),
                picked(all@, keys.take(i as int), wanted),
            decreases n - i,
        {
            let pair = self.entries.entry_at(i);
            let key = pair.0.clone();
            proof {
                assert(wanted.contains(keys[i as int]));
                assert(keys.take(i + 1) =~= keys.take(i as int).push(keys[i as int]));
                lemma_picked(all@, keys.take(i as int), wanted, key, keys, i as int);
            }
            all.push(key);
            i += 1;
        }
        proof {
            assert(keys.take(n as int) =~= keys);
            assert(self@.entries.dom() =~= self.entries@.dom());
            lemma_lists(all@, keys, wanted, wanted);
        }
        all
    }

    /// Forgets the processes under `keys`.
    fn remove_all(&mut self, keys: &Vec<String>, slots: Ghost<Set<Seq<char>>>) -> (reaped: Vec<Reaped>)
        requires
            old(self)@.valid(),
            lists_keys(keys@, slots@),
            slots@.subset_of(old(self)@.entries.dom()),
        ensures
            final(self)@.valid(),
            final(self)@.key == old(self)@.key,
            final(self)@.drawn == old(self)@.drawn,
            final(self)@.entries == old(self)@.entries.remove_keys(slots@),
            gives_out(reaped@, old(self)@, slots@),
    {
        let ghost before = self@;
        let mut reaped: Vec<Reaped> = Vec::new();
        let mut i: usize = 0;
        assert(self@.entries =~= before.entries.remove_keys(first_keys(keys@, 0)));
        while i < keys.len()
            invariant
                i <= keys@.len(),
                self@.valid(),
                self@.key == before.key,
                self@.drawn == before.drawn,
                lists_keys(keys@, slots@),
                slots@.subset_of(before.entries.dom()),
                self@.entries == before.entries.remove_keys(first_keys(keys@, i as int)),
                reaped@.len() == i,
                forall|k: int|
                    0 <= k < i ==> (#[trigger] reaped@[k]).key@ == keys@[k]@ && reaped@[k].os_pid
                        == before.entries[keys@[k]@].os_pid,
            decreases keys.len() - i,
        {
            let ghost key = keys@[i as int]@;
            proof {
                assert(slots@.contains(key));
                assert(before.entries.contains_key(key));
                assert(!first_keys(keys@, i as int).contains(key)) by {
                    if first_keys(keys@, i as int).contains(key) {
                        let k = choose|k: int| 0 <= k < i && keys@[k]@ == key;
                        assert(keys@[k]@ != keys@[i as int]@);
                    }
                }
                assert(self@.entries.contains_key(key));
            }
            match self.finish_stop(keys[i].as_str()) {
                Some(gone) => {
                    reaped.push(gone);
                },
                None => {},
            }
            proof {
                assert forall|k: Seq<char>|
                    first_keys(keys@, i + 1).contains(k) == (first_keys(keys@, i as int).contains(k)
                        || k == key) by {
                    if first_keys(keys@, i + 1).contains(k) {
                        let j = choose|j: int| 0 <= j < i + 1 && keys@[j]@ == k;
                        if j < i {
                            assert(keys@[j]@ == k);
                        }
                    }
                    if k == key {
                        assert(keys@[i as int]@ == k);
                    }
                }
                assert(self@.entries =~= before.entries.remove_keys(first_keys(keys@, i + 1)));
            }
            i += 1;
        }
        proof {
            assert(first_keys(keys@, keys@.len() as int) =~= slots@) by {
                assert forall|k: Seq<char>|
                    first_keys(keys@, keys@.len() as int).contains(k) == slots@.contains(k) by {
                    if slots@.contains(k) {
                        let j = choose|j: int| 0 <= j < keys@.len() && keys@[j]@ == k;
                        assert(keys@[j]@ == k);
                    }
                }
            }
            assert forall|a: int, b: int|
                0 <= a < reaped@.len() && 0 <= b < reaped@.len() && a != b implies (
            #[trigger] reaped@[a]).key@ != (#[trigger] reaped@[b]).key@ by {
                assert(keys@[a]@ != keys@[b]@);
            }
            assert forall|a: int| 0 <= a < reaped@.len() implies slots@.contains(
                (#[trigger] reaped@[a]).key@,
            ) && reaped@[a].os_pid == before.entries[reaped@[a].key@].os_pid by {
                assert(slots@.contains(keys@[a]@));
            }
            assert forall|slot: Seq<char>| #[trigger] slots@.contains(slot) implies exists|a: int|
                0 <= a < reaped@.len() && (#[trigger] reaped@[a]).key@ == slot by {
                let j = choose|j: int| 0 <= j < keys@.len() && (#[trigger] keys@[j])@ == slot;
                assert(reaped@[j].key@ == slot);
            }
        }
        reaped
    }

    /// Takes in what came out of a stream of a process. Tells whether the ring took it; a chunk
    /// that was not taken is to be offered again.
    pub fn feed(&mut self, key: &str, which: LogStream, chunk: &[u8]) -> (accepted: Option<bool>)
        requires
            old(self)@.valid(),
            old(self)@.entries.contains_key(key@) && old(self)@.entries[key@].ring(which).takes(
                chunk@,
            ) ==> old(self)@.entries[key@].ring(which).end() + chunk@.len() <= MAX_STREAM_OFFSET,
        ensures
            final(self)@.valid(),
            match accepted {
                Some(taken) => {
                    &&& old(self)@.entries.contains_key(key@)
                    &&& taken == old(self)@.entries[key@].ring(which).takes(chunk@)
                    &&& final(self)@ == old(self)@.with(
                        key@,
                        old(self)@.entries[key@].fed(which, chunk@),
                    )
                },
                None => !old(self)@.entries.contains_key(key@) && final(self)@ == old(self)@,
            },
    {
        let ghost before = self@;
        match self.take(key) {
            None => {
                assert(self@.entries =~= before.entries);
                None
            },
            Some(mut entry) => {
                assert(before.entries[key@].valid());
                let ghost view = entry@;
                let taken: bool = match which {
                    LogStream::Stdout => entry.core.stdout.push(chunk),
                    LogStream::Stderr => entry.core.stderr.push(chunk),
                };
                let ghost changed = entry@;
                proof {
                    assert(changed == view.fed(which, chunk@));
                    lemma_stays_valid(before, key@, changed);
                }
                self.put(key.to_owned(), entry);
                assert(self@.entries =~= before.with(key@, changed).entries);
                Some(taken)
            },
        }
    }

    /// Notes that a process exited. Its input is closed; its output stays.
    pub fn record_exit(&mut self, key: &str, record: ExitRecord, now: u64)
        requires
            old(self)@.valid(),
        ensures
            final(self)@.valid(),
            final(self)@ == (if old(self)@.entries.contains_key(key@) {
                old(self)@.with(key@, old(self)@.entries[key@].exited(record, now))
            } else {
                old(self)@
            }),
    {
        let ghost before = self@;
        match self.take(key) {
            None => {
                assert(self@.entries =~= before.entries);
            },
            Some(mut entry) => {
                assert(before.entries[key@].valid());
                entry.core.phase = Phase::Exited;
                entry.core.exit = Some(record);
                entry.core.exited_at = Some(now);
                entry.core.stdin_held = false;
                entry.core.stdin_open = false;
                let ghost changed = entry@;
                proof {
                    lemma_stays_valid(before, key@, changed);
                }
                self.put(key.to_owned(), entry);
                assert(self@.entries =~= before.with(key@, changed).entries);
            },
        }
    }

    /// Where the process with this id is kept, for those who feed it and report its exit.
    pub fn slot_of(&self, id: &str) -> (key: String)
        requires
            self@.valid(),
        ensures
            key@ == self@.slot(id@),
    {
        self.key_of(id)
    }
}

/// The first `n` of `keys`.
pub open spec fn first_keys(keys: Seq<String>, n: int) -> Set<Seq<char>> {
    Set::new(|key: Seq<char>| exists|k: int| 0 <= k < n && (#[trigger] keys[k])@ == key)
}

/// `keys` lists each of `slots` once.
pub open spec fn lists_keys(keys: Seq<String>, slots: Set<Seq<char>>) -> bool {
    &&& forall|i: int, j: int|
        0 <= i < keys.len() && 0 <= j < keys.len() && i != j ==> (#[trigger] keys[i])@ != (
        #[trigger] keys[j])@
    &&& forall|i: int| 0 <= i < keys.len() ==> slots.contains((#[trigger] keys[i])@)
    &&& forall|slot: Seq<char>| #[trigger]
        slots.contains(slot) ==> exists|i: int|
            0 <= i < keys.len() && (#[trigger] keys[i])@ == slot
}

/// `due` are those of `keys` that are among `wanted`, in their order.
spec fn picked(due: Seq<String>, keys: Seq<Seq<char>>, wanted: Set<Seq<char>>) -> bool {
    &&& forall|i: int, j: int|
        0 <= i < due.len() && 0 <= j < due.len() && i != j ==> (#[trigger] due[i])@ != (
        #[trigger] due[j])@
    &&& forall|i: int|
        0 <= i < due.len() ==> wanted.contains((#[trigger] due[i])@) && keys.contains(due[i]@)
    &&& forall|k: int|
        0 <= k < keys.len() && wanted.contains(#[trigger] keys[k]) ==> exists|i: int|
            0 <= i < due.len() && (#[trigger] due[i])@ == keys[k]
}

proof fn lemma_picked(
    due: Seq<String>,
    seen: Seq<Seq<char>>,
    wanted: Set<Seq<char>>,
    key: String,
    keys: Seq<Seq<char>>,
    at: int,
)
    requires
        picked(due, seen, wanted),
        0 <= at < keys.len(),
        keys.no_duplicates(),
        seen == keys.take(at),
        key@ == keys[at],
        wanted.contains(key@),
    ensures
        picked(due.push(key), seen.push(key@), wanted),
{
    let more = due.push(key);
    let all = seen.push(key@);
    assert(all[seen.len() as int] == key@);
    assert(!seen.contains(key@)) by {
        if seen.contains(key@) {
            let i = choose|i: int| 0 <= i < seen.len() && seen[i] == key@;
            assert(keys[i] != keys[at]);
        }
    }
    assert forall|i: int, j: int| 0 <= i < more.len() && 0 <= j < more.len() && i != j implies (
    #[trigger] more[i])@ != (#[trigger] more[j])@ by {
        if i < due.len() && j < due.len() {
            assert(due[i]@ != due[j]@);
        } else if i < due.len() {
            assert(seen.contains(due[i]@));
        } else {
            assert(seen.contains(due[j]@));
        }
    }
    assert forall|i: int| 0 <= i < more.len() implies wanted.contains((#[trigger] more[i])@)
        && all.contains(more[i]@) by {
        if i < due.len() {
            assert(seen.contains(due[i]@));
            let k = choose|k: int| 0 <= k < seen.len() && seen[k] == due[i]@;
            assert(all[k] == more[i]@);
        }
    }
    assert forall|k: int| 0 <= k < all.len() && wanted.contains(#[trigger] all[k]) implies exists|
        i: int,
    |
        0 <= i < more.len() && (#[trigger] more[i])@ == all[k] by {
        if k < seen.len() {
            assert(wanted.contains(seen[k]));
            let i = choose|i: int| 0 <= i < due.len() && (#[trigger] due[i])@ == seen[k];
            assert(more[i]@ == all[k]);
        } else {
            assert(more[due.len() as int]@ == all[k]);
        }
    }
}

proof fn lemma_skipped(
    due: Seq<String>,
    seen: Seq<Seq<char>>,
    wanted: Set<Seq<char>>,
    key: Seq<char>,
)
    requires
        picked(due, seen, wanted),
        !wanted.contains(key),
    ensures
        picked(due, seen.push(key), wanted),
{
    let all = seen.push(key);
    assert forall|i: int| 0 <= i < due.len() implies wanted.contains((#[trigger] due[i])@)
        && all.contains(due[i]@) by {
        let k = choose|k: int| 0 <= k < seen.len() && seen[k] == due[i]@;
        assert(seen.contains(due[i]@));
        assert(all[k] == due[i]@);
    }
    assert forall|k: int| 0 <= k < all.len() && wanted.contains(#[trigger] all[k]) implies exists|
        i: int,
    |
        0 <= i < due.len() && (#[trigger] due[i])@ == all[k] by {
        assert(k < seen.len());
        assert(wanted.contains(seen[k]));
    }
}

proof fn lemma_lists(
    due: Seq<String>,
    keys: Seq<Seq<char>>,
    wanted: Set<Seq<char>>,
    dom: Set<Seq<char>>,
)
    requires
        picked(due, keys, wanted),
        listing(keys, dom),
        wanted.subset_of(dom),
    ensures
        lists_keys(due, wanted),
{
    assert forall|slot: Seq<char>| #[trigger] wanted.contains(slot) implies exists|i: int|
        0 <= i < due.len() && (#[trigger] due[i])@ == slot by {
        assert(dom.contains(slot));
        let k = choose|k: int| 0 <= k < keys.len() && keys[k] == slot;
        assert(wanted.contains(keys[k]));
    }
}

/// A listing has as many entries as there are members.
proof fn lemma_count_all(keys: Seq<Seq<char>>, set: Set<Seq<char>>)
    requires
        listing(keys, set),
    ensures
        count_in(keys, set) == keys.len(),
{
    assert forall|i: int| 0 <= i < keys.len() implies set.contains(#[trigger] keys[i]) by {
        assert(keys.contains(keys[i]));
    }
    lemma_count_members(keys, set);
}

/// All of `keys` are counted when all of them are members.
proof fn lemma_count_members(keys: Seq<Seq<char>>, set: Set<Seq<char>>)
    requires
        forall|i: int| 0 <= i < keys.len() ==> set.contains(#[trigger] keys[i]),
    ensures
        count_in(keys, set) == keys.len(),
    decreases keys.len(),
{
    if keys.len() > 0 {
        let rest = keys.drop_last();
        assert forall|i: int| 0 <= i < rest.len() implies set.contains(#[trigger] rest[i]) by {
            assert(rest[i] == keys[i]);
        }
        lemma_count_members(rest, set);
        assert(set.contains(keys[keys.len() - 1]));
    }
}

/// The ids among `ids` that the caller may look at, in their order.
pub open spec fn granted_ids(
    view: RegistryView,
    ids: Seq<String>,
    principal: Seq<char>,
    capsule_id: Seq<char>,
) -> Seq<Seq<char>>
    decreases ids.len(),
{
    if ids.len() == 0 {
        Seq::empty()
    } else {
        let rest = granted_ids(view, ids.drop_last(), principal, capsule_id);
        if view.grants(ids.last()@, principal, capsule_id) {
            rest.push(ids.last()@)
        } else {
            rest
        }
    }
}

/// `infos` tell of the processes `ids`, one after the other.
pub open spec fn tells_of(
    infos: Seq<ProcessInfo>,
    ids: Seq<Seq<char>>,
    view: RegistryView,
    now: u64,
) -> bool {
    &&& infos.len() == ids.len()
    &&& forall|i: int|
        0 <= i < infos.len() ==> describes(#[trigger] infos[i], view.process(ids[i]), now)
}

/// Where the processes are kept that a caller is shown.
pub open spec fn listed_slots(
    view: RegistryView,
    principal: Seq<char>,
    capsule_id: Seq<char>,
    filter: Option<Seq<char>>,
) -> Set<Seq<char>> {
    Set::new(
        |slot: Seq<char>|
            {
                &&& view.entries.contains_key(slot)
                &&& view.entries[slot].owned_by(principal, capsule_id)
                &&& filter is Some ==> occurs_in(view.entries[slot].label, filter->Some_0)
            },
    )
}

/// `reaped` are the processes under `slots`, each once.
pub open spec fn gives_out(
    reaped: Seq<Reaped>,
    view: RegistryView,
    slots: Set<Seq<char>>,
) -> bool {
    &&& forall|i: int, j: int|
        0 <= i < reaped.len() && 0 <= j < reaped.len() && i != j ==> (#[trigger] reaped[i]).key@ != (
        #[trigger] reaped[j]).key@
    &&& forall|i: int|
        0 <= i < reaped.len() ==> slots.contains((#[trigger] reaped[i]).key@) && reaped[i].os_pid
            == view.entries[reaped[i].key@].os_pid
    &&& forall|slot: Seq<char>| #[trigger]
        slots.contains(slot) ==> exists|i: int|
            0 <= i < reaped.len() && (#[trigger] reaped[i]).key@ == slot
}

} // verus!
