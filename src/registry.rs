//! The blacklist registry: at most one record per (asset, address) pair, found
//! by an explicit key instead of a derived account address.

use vstd::prelude::*;
use crate::errors::SSSError;
use crate::events::{AddressBlacklisted, AddressUnblacklisted, TokensSeized, TransferHookExecuted};
use crate::instructions::compliance::{
    blacklist_add_error, blacklist_add_handler, blacklist_remove_error, blacklist_remove_handler,
    blocked_entry, seize_error, seize_tokens_handler,
};
use crate::instructions::hook::{transfer_allowed, transfer_hook_handler, HookOutcome};
use crate::pubkey::Pubkey;
use crate::state::{BlacklistEntry, StablecoinState};

verus! {

/// The key of a blacklist record: the asset, then the address.
pub open spec fn blacklist_key(mint: Pubkey, address: Pubkey) -> (Pubkey, Pubkey) {
    (mint, address)
}

/// The key under which a record is kept.
pub open spec fn entry_key(e: BlacklistEntry) -> (Pubkey, Pubkey) {
    blacklist_key(e.stablecoin, e.blacklisted_address)
}

/// Blacklist records of any number of assets, keyed by (asset, address).
pub struct BlacklistRegistry {
    entries: Vec<BlacklistEntry>,
}

impl BlacklistRegistry {
    /// The records, in the order they were first stored.
    pub closed spec fn records(&self) -> Seq<BlacklistEntry> {
        self.entries@
    }

    /// No two records share a key.
    pub open spec fn wf(&self) -> bool {
        forall|i: int, j: int|
            0 <= i < j < self.records().len() ==> entry_key(#[trigger] self.records()[i])
                != entry_key(#[trigger] self.records()[j])
    }

    /// Whether some record has key `k`.
    pub open spec fn has_key(&self, k: (Pubkey, Pubkey)) -> bool {
        exists|i: int| 0 <= i < self.records().len() && entry_key(#[trigger] self.records()[i]) == k
    }

    /// The record kept under key `k`, if any.
    pub open spec fn spec_lookup(&self, k: (Pubkey, Pubkey)) -> Option<BlacklistEntry> {
        if self.has_key(k) {
            Some(
                self.records()[choose|i: int|
                    0 <= i < self.records().len() && entry_key(#[trigger] self.records()[i])
                        == k],
            )
        } else {
            None
        }
    }

    /// In a well-formed registry the record at `i` is the one its key finds.
    pub proof fn lemma_lookup_at(&self, i: int)
        requires
            self.wf(),
            0 <= i < self.records().len(),
        ensures
            self.spec_lookup(entry_key(self.records()[i])) == Some(self.records()[i]),
    {
        let k = entry_key(self.records()[i]);
        assert(self.has_key(k));
        let j = choose|j: int| 0 <= j < self.records().len() && entry_key(#[trigger] self.records()[j]) == k;
        if j < i {
            assert(entry_key(self.records()[j]) != entry_key(self.records()[i]));
        } else if i < j {
            assert(entry_key(self.records()[i]) != entry_key(self.records()[j]));
        }
    }

    /// An empty registry.
    pub fn new() -> (r: BlacklistRegistry)
        ensures
            r.wf(),
            forall|k: (Pubkey, Pubkey)| r.spec_lookup(k) is None,
    {
        BlacklistRegistry { entries: Vec::new() }
    }

    /// Number of records kept.
    pub fn len(&self) -> (r: usize)
        ensures
            r == self.records().len(),
    {
        self.entries.len()
    }

    /// Position of the record with key (`mint`, `address`).
    fn position(&self, mint: &Pubkey, address: &Pubkey) -> (r: Option<usize>)
        ensures
            match r {
                Some(i) => i < self.records().len() && entry_key(self.records()[i as int])
                    == blacklist_key(*mint, *address),
                None => !self.has_key(blacklist_key(*mint, *address)),
            },
    {
        let mut i: usize = 0;
        while i < self.entries.len()
            invariant
                0 <= i <= self.entries@.len(),
                self.entries@ == self.records(),
                forall|j: int|
                    0 <= j < i ==> entry_key(#[trigger] self.records()[j]) != blacklist_key(
                        *mint,
                        *address,
                    ),
            decreases self.entries@.len() - i,
        {
            let e = &self.entries[i];
            if e.stablecoin.same_as(mint) && e.blacklisted_address.same_as(address) {
                return Some(i);
            }
            i = i + 1;
        }
        None
    }

    /// The record of `address` for asset `mint`: absent means never blacklisted,
    /// which is not the same as an inactive record.
    pub fn lookup(&self, mint: &Pubkey, address: &Pubkey) -> (r: Option<BlacklistEntry>)
        requires
            self.wf(),
        ensures
            r == self.spec_lookup(blacklist_key(*mint, *address)),
    {
        match self.position(mint, address) {
            Some(i) => {
                proof {
                    self.lemma_lookup_at(i as int);
                }
                Some(self.entries[i])
            },
            None => None,
        }
    }

    /// Keeps `entry` under its key, replacing the record already there if any.
    pub fn store(&mut self, entry: BlacklistEntry)
        requires
            old(self).wf(),
        ensures
            final(self).wf(),
            forall|k: (Pubkey, Pubkey)|
                #[trigger] final(self).spec_lookup(k) == if k == entry_key(entry) {
                    Some(entry)
                } else {
                    old(self).spec_lookup(k)
                },
    {
        let ghost before = *self;
        match self.position(&entry.stablecoin, &entry.blacklisted_address) {
            Some(i) => {
                self.entries.set(i, entry);
                assert(self.records() == before.records().update(i as int, entry));
                assert(self.wf()) by {
                    assert forall|a: int, b: int|
                        0 <= a < b < self.records().len() implies entry_key(
                            #[trigger] self.records()[a],
                        ) != entry_key(#[trigger] self.records()[b]) by {
                        assert(entry_key(self.records()[a]) == entry_key(before.records()[a]));
                        assert(entry_key(self.records()[b]) == entry_key(before.records()[b]));
                    }
                }
                assert forall|k: (Pubkey, Pubkey)|
                    #[trigger] self.spec_lookup(k) == if k == entry_key(entry) {
                        Some(entry)
                    } else {
                        before.spec_lookup(k)
                    } by {
                    if k == entry_key(entry) {
                        self.lemma_lookup_at(i as int);
                    } else if before.has_key(k) {
                        let j = choose|j: int|
                            0 <= j < before.records().len() && entry_key(
                                #[trigger] before.records()[j],
                            ) == k;
                        before.lemma_lookup_at(j);
                        assert(j != i);
                        self.lemma_lookup_at(j);
                    } else {
                        assert(!self.has_key(k)) by {
                            if self.has_key(k) {
                                let j = choose|j: int|
                                    0 <= j < self.records().len() && entry_key(
                                        #[trigger] self.records()[j],
                                    ) == k;
                                assert(j != i);
                                assert(entry_key(before.records()[j]) == k);
                            }
                        }
                    }
                }
            },
            None => {
                self.entries.push(entry);
                let ghost n = before.records().len() as int;
                assert(self.records() == before.records().push(entry));
                assert(self.wf()) by {
                    assert forall|a: int, b: int|
                        0 <= a < b < self.records().len() implies entry_key(
                            #[trigger] self.records()[a],
                        ) != entry_key(#[trigger] self.records()[b]) by {
                        if b == n {
                            assert(entry_key(before.records()[a]) != entry_key(entry));
                        } else {
                            assert(self.records()[a] == before.records()[a]);
                            assert(self.records()[b] == before.records()[b]);
                        }
                    }
                }
                assert forall|k: (Pubkey, Pubkey)|
                    #[trigger] self.spec_lookup(k) == if k == entry_key(entry) {
                        Some(entry)
                    } else {
                        before.spec_lookup(k)
                    } by {
                    if k == entry_key(entry) {
                        self.lemma_lookup_at(n);
                    } else if before.has_key(k) {
                        let j = choose|j: int|
                            0 <= j < before.records().len() && entry_key(
                                #[trigger] before.records()[j],
                            ) == k;
                        before.lemma_lookup_at(j);
                        assert(self.records()[j] == before.records()[j]);
                        self.lemma_lookup_at(j);
                    } else {
                        assert(!self.has_key(k)) by {
                            if self.has_key(k) {
                                let j = choose|j: int|
                                    0 <= j < self.records().len() && entry_key(
                                        #[trigger] self.records()[j],
                                    ) == k;
                                assert(j != n);
                                assert(self.records()[j] == before.records()[j]);
                            }
                        }
                    }
                }
            },
        }
    }

    /// Blocks `address` for the asset of `state`: its record is created, or
    /// reactivated when it exists and is inactive.
    pub fn block(
        &mut self,
        state: &StablecoinState,
        compliance_officer: Pubkey,
        address: Pubkey,
        bump: u8,
        now: i64,
    ) -> (r: Result<AddressBlacklisted, SSSError>)
        requires
            old(self).wf(),
        ensures
            final(self).wf(),
            match blacklist_add_error(
                *state,
                compliance_officer,
                old(self).spec_lookup(blacklist_key(state.mint, address)),
            ) {
                Some(e) => r == Err::<AddressBlacklisted, SSSError>(e) && forall|
                    k: (Pubkey, Pubkey),
                | #[trigger] final(self).spec_lookup(k) == old(self).spec_lookup(k),
                None => r is Ok && forall|k: (Pubkey, Pubkey)|
                    #[trigger] final(self).spec_lookup(k) == if k == blacklist_key(
                        state.mint,
                        address,
                    ) {
                        Some(blocked_entry(*state, address, compliance_officer, bump, now))
                    } else {
                        old(self).spec_lookup(k)
                    },
            },
    {
        let mut entry = self.lookup(&state.mint, &address);
        let r = blacklist_add_handler(state, &mut entry, compliance_officer, address, bump, now);
        if r.is_ok() {
            match entry {
                Some(e) => self.store(e),
                None => {},
            }
        }
        r
    }

    /// Unblocks `address` for the asset of `state` by deactivating its record.
    pub fn unblock(
        &mut self,
        state: &StablecoinState,
        compliance_officer: Pubkey,
        address: Pubkey,
        now: i64,
    ) -> (r: Result<AddressUnblacklisted, SSSError>)
        requires
            old(self).wf(),
        ensures
            final(self).wf(),
            match blacklist_remove_error(
                *state,
                compliance_officer,
                old(self).spec_lookup(blacklist_key(state.mint, address)),
            ) {
                Some(e) => r == Err::<AddressUnblacklisted, SSSError>(e) && forall|
                    k: (Pubkey, Pubkey),
                | #[trigger] final(self).spec_lookup(k) == old(self).spec_lookup(k),
                None => r is Ok && forall|k: (Pubkey, Pubkey)|
                    #[trigger] final(self).spec_lookup(k) == if k == blacklist_key(
                        state.mint,
                        address,
                    ) {
                        Some(
                            BlacklistEntry {
                                is_active: false,
                                ..old(self).spec_lookup(k)->Some_0
                            },
                        )
                    } else {
                        old(self).spec_lookup(k)
                    },
            },
    {
        let mut entry = self.lookup(&state.mint, &address);
        proof {
            if entry is Some {
                let k = blacklist_key(state.mint, address);
                let i = choose|i: int|
                    0 <= i < self.records().len() && entry_key(#[trigger] self.records()[i]) == k;
                assert(entry_key(entry->Some_0) == k);
            }
        }
        let r = blacklist_remove_handler(state, &mut entry, compliance_officer, address, now);
        if r.is_ok() {
            match entry {
                Some(e) => self.store(e),
                None => {},
            }
        }
        r
    }

    /// The transfer policy check for a transfer of `amount` from `source`
    /// (owned by `source_owner`) to `destination` (owned by
    /// `destination_owner`), with the owners' records looked up here. Nothing
    /// is looked up when the asset's check is disabled.
    pub fn check_transfer(
        &self,
        state: &StablecoinState,
        source: Pubkey,
        destination: Pubkey,
        source_owner: Pubkey,
        destination_owner: Pubkey,
        amount: u64,
        now: i64,
    ) -> (r: HookOutcome)
        requires
            self.wf(),
        ensures
            ({
                let allowed = transfer_allowed(
                    *state,
                    self.spec_lookup(blacklist_key(state.mint, source_owner)),
                    self.spec_lookup(blacklist_key(state.mint, destination_owner)),
                );
                &&& !state.transfer_hook_enabled ==> r.event is None
                &&& state.transfer_hook_enabled ==> r.event == Some(
                    (TransferHookExecuted {
                        mint: state.mint,
                        source,
                        destination,
                        amount,
                        allowed,
                        timestamp: now,
                    }),
                )
                &&& allowed ==> r.result is Ok
                &&& !allowed ==> r.result == Err::<(), SSSError>(SSSError::TransferBlocked)
            }),
    {
        if !state.transfer_hook_enabled {
            return transfer_hook_handler(state, source, destination, &None, &None, amount, now);
        }
        let sender = self.lookup(&state.mint, &source_owner);
        let recipient = self.lookup(&state.mint, &destination_owner);
        transfer_hook_handler(state, source, destination, &sender, &recipient, amount, now)
    }

    /// Authorizes seizing `amount` from `target_account`, owned by `target_owner`,
    /// whose record is looked up here.
    pub fn authorize_seizure(
        &self,
        state: &StablecoinState,
        compliance_officer: Pubkey,
        target_owner: Pubkey,
        target_account: Pubkey,
        amount: u64,
        now: i64,
    ) -> (r: Result<TokensSeized, SSSError>)
        requires
            self.wf(),
        ensures
            match seize_error(
                *state,
                compliance_officer,
                amount,
                self.spec_lookup(blacklist_key(state.mint, target_owner)),
            ) {
                Some(e) => r == Err::<TokensSeized, SSSError>(e),
                None => r == Ok::<TokensSeized, SSSError>(
                    (TokensSeized {
                        mint: state.mint,
                        from: target_account,
                        amount,
                        seized_by: compliance_officer,
                        timestamp: now,
                    }),
                ),
            },
    {
        let entry = self.lookup(&state.mint, &target_owner);
        seize_tokens_handler(state, &entry, compliance_officer, target_account, amount, now)
    }
}

} // verus!
