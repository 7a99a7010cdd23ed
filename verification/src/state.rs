//! The one thing the loop remembers: the address it last applied.

use vstd::prelude::*;
use vstd::string::*;

verus! {

/// One attempt to write an address to the provider, and how it ended.
pub struct WriteRecord {
    /// The address that was sent, as the record's content.
    pub content: Seq<char>,
    /// Whether the provider confirmed the write.
    pub acknowledged: bool,
}

/// The content of the latest write that the provider confirmed, or the
/// empty text where it has confirmed none.
pub open spec fn last_acknowledged(writes: Seq<WriteRecord>) -> Seq<char>
    decreases writes.len(),
{
    if writes.len() == 0 {
        Seq::<char>::empty()
    } else if writes.last().acknowledged {
        writes.last().content
    } else {
        last_acknowledged(writes.drop_last())
    }
}

/// The state of the loop: the last address applied, empty at first. It
/// always equals the most recent address that was written to the provider
/// with success.
pub struct SyncState {
    last_ip: String,
    writes: Ghost<Seq<WriteRecord>>,
}

impl SyncState {
    #[verifier::type_invariant]
    spec fn cache_follows_writes(&self) -> bool {
        self.last_ip@ == last_acknowledged(self.writes@)
    }

    /// The last address applied.
    pub closed spec fn last_ip(&self) -> Seq<char> {
        self.last_ip@
    }

    /// Every write attempted so far, oldest first.
    pub closed spec fn writes(&self) -> Seq<WriteRecord> {
        self.writes@
    }

    /// The state before any write.
    pub fn new() -> (state: SyncState)
        ensures
            state.last_ip() == Seq::<char>::empty(),
            state.writes() == Seq::<WriteRecord>::empty(),
    {
        SyncState { last_ip: String::new(), writes: Ghost(Seq::empty()) }
    }

    /// The last address applied: empty until a write has succeeded, and
    /// from then on the content of the latest write that did.
    pub fn last_applied_ip(&self) -> (ip: &str)
        ensures
            ip@ == self.last_ip(),
            ip@ == last_acknowledged(self.writes()),
    {
        proof {
            use_type_invariant(self);
        }
        self.last_ip.as_str()
    }

    /// Whether `content` is the last address applied.
    pub(crate) fn holds(&self, content: &String) -> (same: bool)
        ensures
            same == (content@ == self.last_ip()),
    {
        self.last_ip == *content
    }

    /// Takes note of a write that the provider confirmed.
    pub(crate) fn commit(&mut self, content: String)
        ensures
            final(self).last_ip() == content@,
            final(self).writes() == old(self).writes().push(
                WriteRecord { content: content@, acknowledged: true },
            ),
            final(self).last_ip() == last_acknowledged(final(self).writes()),
    {
        let ghost writes = self.writes@.push(WriteRecord { content: content@, acknowledged: true });
        *self = SyncState { last_ip: content, writes: Ghost(writes) };
    }

    /// Takes note of a write that failed. The last address applied stays.
    pub(crate) fn keep(&mut self, content: &str)
        ensures
            final(self).last_ip() == old(self).last_ip(),
            final(self).writes() == old(self).writes().push(
                WriteRecord { content: content@, acknowledged: false },
            ),
            final(self).last_ip() == last_acknowledged(final(self).writes()),
    {
        proof {
            use_type_invariant(&*self);
        }
        let ghost before = self.writes@;
        let ghost writes = before.push(WriteRecord { content: content@, acknowledged: false });
        proof {
            assert(writes.drop_last() =~= before);
        }
        self.writes = Ghost(writes);
    }
}

} // verus!
