use vstd::prelude::*;
use crate::error::TransferError;
use crate::page::page_of;
use crate::status::{EventType, event_named};
use crate::text::{decimal, decimal_text, json_quote, json_string_of};
use crate::time::{Timestamp, rfc3339_micros};
use crate::transfer::{Transfer, copy_text};

verus! {

/// One balance-changing event. Entries are never changed once written.
#[derive(Debug)]
pub struct PointLedger {
    pub id: u32,
    pub user_id: u32,
    pub change: i64,
    pub balance_after: u64,
    pub event_type: EventType,
    pub transfer_id: Option<u32>,
    pub reference: Option<String>,
    pub metadata: Option<String>,
    pub created_at: Timestamp,
}

impl Clone for PointLedger {
    fn clone(&self) -> (r: Self)
        ensures
            r == *self,
    {
        PointLedger {
            id: self.id,
            user_id: self.user_id,
            change: self.change,
            balance_after: self.balance_after,
            event_type: self.event_type,
            transfer_id: self.transfer_id,
            reference: copy_text(&self.reference),
            metadata: copy_text(&self.metadata),
            created_at: self.created_at,
        }
    }
}

/// A ledger entry as stored: event type and instant as text.
#[derive(Debug)]
pub struct PointLedgerDb {
    pub id: u32,
    pub user_id: u32,
    pub change: i64,
    pub balance_after: u64,
    pub event_type: String,
    pub transfer_id: Option<u32>,
    pub reference: Option<String>,
    pub metadata: Option<String>,
    pub created_at: String,
}

/// Why a stored entry cannot be read back, if it cannot.
pub open spec fn ledger_row_problem(db: PointLedgerDb) -> Option<Seq<char>> {
    if event_named(db.event_type@) is None {
        Some("Invalid event type: Invalid event type: "@ + db.event_type@)
    } else if rfc3339_micros(db.created_at@) is None {
        Some("Invalid created_at date: "@ + db.created_at@)
    } else {
        None
    }
}

/// The entry that a stored row holds, when every field parses.
pub open spec fn ledger_entry_of_row(db: PointLedgerDb) -> PointLedger {
    PointLedger {
        id: db.id,
        user_id: db.user_id,
        change: db.change,
        balance_after: db.balance_after,
        event_type: event_named(db.event_type@)->0,
        transfer_id: db.transfer_id,
        reference: db.reference,
        metadata: db.metadata,
        created_at: Timestamp { micros: rfc3339_micros(db.created_at@)->0 },
    }
}

impl PointLedgerDb {
    /// Reads a stored row back into a ledger entry.
    pub fn to_domain(self) -> (r: Result<PointLedger, String>)
        ensures
            match ledger_row_problem(self) {
                Some(msg) => r is Err && r->Err_0@ == msg,
                None => r == Ok::<PointLedger, String>(ledger_entry_of_row(self)),
            },
    {
        proof {
            reveal_strlit("Invalid event type: ");
            reveal_strlit("Invalid event type: Invalid event type: ");
        }
        let event_type = match EventType::from_str(self.event_type.as_str()) {
            Ok(e) => e,
            Err(e) => {
                return Err("Invalid event type: ".to_owned().concat(e.as_str()));
            },
        };
        let created_at = match Timestamp::parse_rfc3339(self.created_at.as_str()) {
            Some(t) => t,
            None => {
                return Err("Invalid created_at date: ".to_owned().concat(self.created_at.as_str()));
            },
        };
        Ok(PointLedger {
            id: self.id,
            user_id: self.user_id,
            change: self.change,
            balance_after: self.balance_after,
            event_type,
            transfer_id: self.transfer_id,
            reference: self.reference,
            metadata: self.metadata,
            created_at,
        })
    }
}

/// The `balance_after` of the user's most recent entry, if the user has one.
pub open spec fn latest_balance(s: Seq<PointLedger>, user_id: u32) -> Option<u64>
    decreases s.len(),
{
    if s.len() == 0 {
        None
    } else if s.last().user_id == user_id {
        Some(s.last().balance_after)
    } else {
        latest_balance(s.drop_last(), user_id)
    }
}

/// The user's current balance: that of the most recent entry, else the seed.
pub open spec fn balance_of(s: Seq<PointLedger>, user_id: u32, seed: u64) -> u64 {
    match latest_balance(s, user_id) {
        Some(b) => b,
        None => seed,
    }
}

/// The user's entries, most recent first.
pub open spec fn entries_of_user(s: Seq<PointLedger>, user_id: u32) -> Seq<PointLedger>
    decreases s.len(),
{
    if s.len() == 0 {
        Seq::empty()
    } else if s.last().user_id == user_id {
        seq![s.last()] + entries_of_user(s.drop_last(), user_id)
    } else {
        entries_of_user(s.drop_last(), user_id)
    }
}

/// Every entry's id is its position plus one: ids grow in creation order.
pub open spec fn ids_in_order(s: Seq<PointLedger>) -> bool {
    forall|i: int| 0 <= i < s.len() ==> #[trigger] s[i].id == i + 1
}

/// The audit text of an entry: `prefix` followed by a user id.
pub open spec fn reference_text(prefix: Seq<char>, user_id: u32) -> Seq<char> {
    prefix + decimal(user_id as nat)
}

/// The JSON object `{"idem_key":..,"note":..,"transfer_id":..}` built from
/// already quoted texts; an absent value is `null`.
pub open spec fn metadata_text(
    transfer_id: Option<u32>,
    quoted_key: Seq<char>,
    quoted_note: Option<Seq<char>>,
) -> Seq<char> {
    "{\"idem_key\":"@ + quoted_key + ",\"note\":"@ + match quoted_note {
        Some(q) => q,
        None => "null"@,
    } + ",\"transfer_id\":"@ + match transfer_id {
        Some(id) => decimal(id as nat),
        None => "null"@,
    } + "}"@
}

/// The metadata of both entries of a transfer: its id, key and note, as JSON.
pub open spec fn transfer_metadata_text(
    transfer_id: Option<u32>,
    idem_key: Seq<char>,
    note: Option<String>,
) -> Seq<char> {
    metadata_text(
        transfer_id,
        json_string_of(idem_key),
        match note {
            Some(n) => Some(json_string_of(n@)),
            None => None,
        },
    )
}

/// Frames the metadata object around already quoted key and note.
pub fn frame_metadata(transfer_id: Option<u32>, quoted_key: &str, quoted_note: Option<&str>) -> (r:
    String)
    ensures
        r@ == metadata_text(
            transfer_id,
            quoted_key@,
            match quoted_note {
                Some(q) => Some(q@),
                None => None,
            },
        ),
{
    let mut s = "{\"idem_key\":".to_owned();
    s.append(quoted_key);
    s.append(",\"note\":");
    match quoted_note {
        Some(q) => s.append(q),
        None => s.append("null"),
    }
    s.append(",\"transfer_id\":");
    match transfer_id {
        Some(id) => {
            let d = decimal_text(id);
            s.append(d.as_str());
        },
        None => s.append("null"),
    }
    s.append("}");
    s
}

/// The metadata of both entries of a transfer.
pub fn transfer_metadata(transfer_id: Option<u32>, idem_key: &str, note: &Option<String>) -> (r:
    String)
    ensures
        r@ == transfer_metadata_text(transfer_id, idem_key@, *note),
{
    let quoted_key = json_quote(idem_key);
    match note {
        Some(n) => {
            let quoted_note = json_quote(n.as_str());
            frame_metadata(transfer_id, quoted_key.as_str(), Some(quoted_note.as_str()))
        },
        None => frame_metadata(transfer_id, quoted_key.as_str(), None),
    }
}

/// Why moving `t.amount` points from `t.from_user_id` to `t.to_user_id` on
/// ledger `s` cannot go ahead, if it cannot: the sender lacks the points, the
/// receiver's balance would overflow, or no ids are left for two entries.
pub open spec fn move_error(s: Seq<PointLedger>, t: Transfer, from_seed: u64, to_seed: u64) -> Option<
    TransferError,
> {
    if balance_of(s, t.from_user_id, from_seed) < t.amount {
        Some(TransferError::InsufficientPoints)
    } else if balance_of(s, t.to_user_id, to_seed) + t.amount > u64::MAX {
        Some(TransferError::BalanceOverflow)
    } else if s.len() + 2 > u32::MAX {
        Some(TransferError::StoreFull)
    } else {
        None
    }
}

/// Entry `e` is the record of one side of transfer `t`.
pub open spec fn records_side(
    e: PointLedger,
    id: int,
    user_id: u32,
    change: int,
    balance_after: int,
    event_type: EventType,
    reference: Seq<char>,
    t: Transfer,
    at: Timestamp,
) -> bool {
    &&& e.id == id
    &&& e.user_id == user_id
    &&& e.change == change
    &&& e.balance_after == balance_after
    &&& e.event_type == event_type
    &&& e.transfer_id == t.transfer_id
    &&& e.reference is Some && e.reference->0@ == reference
    &&& e.metadata is Some && e.metadata->0@ == transfer_metadata_text(
        t.transfer_id,
        t.idem_key@,
        t.note,
    )
    &&& e.created_at == at
}

/// Ledger `after` is ledger `before` followed by the two entries of transfer
/// `t`: a debit of the sender, then a credit of the receiver.
pub open spec fn records_transfer(
    before: Seq<PointLedger>,
    after: Seq<PointLedger>,
    t: Transfer,
    from_seed: u64,
    to_seed: u64,
    at: Timestamp,
) -> bool {
    let n = before.len() as int;
    &&& after.len() == n + 2
    &&& after.subrange(0, n) == before
    &&& records_side(
        after[n],
        n + 1,
        t.from_user_id,
        -(t.amount as int),
        balance_of(before, t.from_user_id, from_seed) - t.amount,
        EventType::TransferOut,
        reference_text("Transfer to user "@, t.to_user_id),
        t,
        at,
    )
    &&& records_side(
        after[n + 1],
        n + 2,
        t.to_user_id,
        t.amount as int,
        balance_of(before, t.to_user_id, to_seed) + t.amount,
        EventType::TransferIn,
        reference_text("Transfer from user "@, t.from_user_id),
        t,
        at,
    )
}

/// Append-only ledger of balance changes, in creation order.
pub struct LedgerStore {
    entries: Vec<PointLedger>,
}

impl View for LedgerStore {
    type V = Seq<PointLedger>;

    closed spec fn view(&self) -> Seq<PointLedger> {
        self.entries@
    }
}

/// The entry that `create_ledger_entry` writes.
pub open spec fn new_entry(
    id: int,
    user_id: u32,
    change: i64,
    balance_after: u64,
    event_type: EventType,
    transfer_id: Option<u32>,
    reference: Option<String>,
    metadata: Option<String>,
    created_at: Timestamp,
) -> PointLedger {
    PointLedger {
        id: id as u32,
        user_id,
        change,
        balance_after,
        event_type,
        transfer_id,
        reference,
        metadata,
        created_at,
    }
}

impl LedgerStore {
    /// Ids run in creation order and all fit in a `u32`.
    pub open spec fn well_formed(&self) -> bool {
        &&& ids_in_order(self@)
        &&& self@.len() <= u32::MAX
    }

    /// An empty ledger.
    pub fn new() -> (r: LedgerStore)
        ensures
            r.well_formed(),
            r@ == Seq::<PointLedger>::empty(),
    {
        LedgerStore { entries: Vec::new() }
    }

    /// The number of entries.
    pub fn len(&self) -> (r: usize)
        ensures
            r == self@.len(),
    {
        self.entries.len()
    }

    /// Appends one entry with the next id, without any business check.
    /// Fails, changing nothing, only when no id is left.
    pub fn create_ledger_entry(
        &mut self,
        user_id: u32,
        change: i64,
        balance_after: u64,
        event_type: EventType,
        transfer_id: Option<u32>,
        reference: Option<String>,
        metadata: Option<String>,
        created_at: Timestamp,
    ) -> (r: Result<PointLedger, TransferError>)
        requires
            old(self).well_formed(),
        ensures
            final(self).well_formed(),
            old(self)@.len() == u32::MAX ==> r == Err::<PointLedger, TransferError>(
                TransferError::StoreFull,
            ) && final(self)@ == old(self)@,
            old(self)@.len() < u32::MAX ==> {
                let e = new_entry(
                    (old(self)@.len() + 1) as int,
                    user_id,
                    change,
                    balance_after,
                    event_type,
                    transfer_id,
                    reference,
                    metadata,
                    created_at,
                );
                r == Ok::<PointLedger, TransferError>(e) && final(self)@ == old(self)@.push(e)
            },
    {
        if self.entries.len() >= 0xffff_ffffusize {
            return Err(TransferError::StoreFull);
        }
        let id = (self.entries.len() + 1) as u32;
        let entry = PointLedger {
            id,
            user_id,
            change,
            balance_after,
            event_type,
            transfer_id,
            reference,
            metadata,
            created_at,
        };
        let out = entry.clone();
        self.entries.push(entry);
        Ok(out)
    }

    /// The user's latest recorded balance, or `seed` if the user has no entry.
    pub fn get_current_balance(&self, user_id: u32, seed: u64) -> (r: u64)
        ensures
            r == balance_of(self@, user_id, seed),
    {
        let mut i = self.entries.len();
        assert(self@.subrange(0, i as int) =~= self@);
        while i > 0
            invariant
                i <= self@.len(),
                latest_balance(self@.subrange(0, i as int), user_id) == latest_balance(
                    self@,
                    user_id,
                ),
            decreases i,
        {
            assert(self@.subrange(0, i as int).drop_last() =~= self@.subrange(0, i - 1));
            if self.entries[i - 1].user_id == user_id {
                return self.entries[i - 1].balance_after;
            }
            i = i - 1;
        }
        seed
    }

    /// The user's entries, most recent first, skipping `offset` (default 0)
    /// and returning at most `limit` (default 100).
    pub fn get_ledger_by_user_id(&self, user_id: u32, limit: Option<usize>, offset: Option<usize>) -> (r:
        Vec<PointLedger>)
        ensures
            r@ == page_of(
                entries_of_user(self@, user_id),
                match offset {
                    Some(o) => o as int,
                    None => 0,
                },
                match limit {
                    Some(l) => l as int,
                    None => 100,
                },
            ),
    {
        let limit: usize = match limit {
            Some(l) => l,
            None => 100,
        };
        let offset: usize = match offset {
            Some(o) => o,
            None => 0,
        };
        let mut skipped: usize = 0;
        let mut out: Vec<PointLedger> = Vec::new();
        let mut i = self.entries.len();
        let ghost all = entries_of_user(self@, user_id);
        let ghost seen: Seq<PointLedger> = Seq::empty();
        assert(self@.subrange(0, i as int) =~= self@);
        while i > 0 && out.len() < limit
            invariant
                i <= self@.len(),
                all == entries_of_user(self@, user_id),
                seen + entries_of_user(self@.subrange(0, i as int), user_id) == all,
                skipped <= offset,
                skipped < offset ==> out@.len() == 0 && seen.len() == skipped,
                skipped == offset ==> out@ == seen.subrange(offset as int, seen.len() as int),
                skipped == offset ==> seen.len() >= offset,
                out@.len() <= limit,
            decreases i,
        {
            let ghost prefix = self@.subrange(0, i as int);
            assert(prefix.drop_last() =~= self@.subrange(0, i - 1));
            if self.entries[i - 1].user_id == user_id {
                proof {
                    assert(seen.push(prefix.last()) + entries_of_user(prefix.drop_last(), user_id)
                        =~= seen + entries_of_user(prefix, user_id));
                    seen = seen.push(prefix.last());
                }
                if skipped < offset {
                    skipped = skipped + 1;
                } else {
                    out.push(self.entries[i - 1].clone());
                    assert(out@ =~= seen.subrange(offset as int, seen.len() as int));
                }
            }
            i = i - 1;
        }
        proof {
            let e = entries_of_user(self@.subrange(0, i as int), user_id);
            if i == 0 {
                assert(e =~= Seq::<PointLedger>::empty());
                assert(seen =~= all);
            }
            assert(all.len() == seen.len() + e.len());
            assert(forall|k: int| 0 <= k < seen.len() ==> all[k] == #[trigger] seen[k]);
            if out@.len() < limit {
                assert(i == 0);
                assert(page_of(all, offset as int, limit as int) =~= out@);
            } else {
                assert(page_of(all, offset as int, limit as int) =~= out@);
            }
        }
        out
    }
    /// A ledger holding `entries`, if their ids run in creation order.
    pub fn from_entries(entries: Vec<PointLedger>) -> (r: Option<LedgerStore>)
        ensures
            r is Some <==> (ids_in_order(entries@) && entries@.len() <= u32::MAX),
            r is Some ==> r->0.well_formed() && r->0@ == entries@,
    {
        let mut i: usize = 0;
        while i < entries.len()
            invariant
                i <= entries@.len(),
                i <= u32::MAX,
                forall|j: int| 0 <= j < i ==> #[trigger] entries@[j].id == j + 1,
            decreases entries@.len() - i,
        {
            if i >= 0xffff_ffffusize || entries[i].id as usize != i + 1 {
                return None;
            }
            i = i + 1;
        }
        Some(LedgerStore { entries })
    }

    /// The entries from position `start` on, in creation order.
    pub fn entries_from(&self, start: usize) -> (r: Vec<PointLedger>)
        ensures
            r@ == self@.subrange(
                if start < self@.len() {
                    start as int
                } else {
                    self@.len() as int
                },
                self@.len() as int,
            ),
    {
        let mut out: Vec<PointLedger> = Vec::new();
        let mut i = start;
        let ghost first = if start < self@.len() {
            start as int
        } else {
            self@.len() as int
        };
        while i < self.entries.len()
            invariant
                start <= i,
                first <= i || i >= self@.len(),
                first == if start < self@.len() {
                    start as int
                } else {
                    self@.len() as int
                },
                i < self@.len() ==> out@ == self@.subrange(first, i as int),
                i >= self@.len() ==> out@ == self@.subrange(first, self@.len() as int),
            decreases self@.len() - i,
        {
            out.push(self.entries[i].clone());
            i = i + 1;
            assert(i <= self@.len() ==> out@ =~= self@.subrange(first, i as int));
        }
        proof {
            if start >= self@.len() {
                assert(out@ =~= self@.subrange(first, self@.len() as int));
            }
        }
        out
    }

    /// Whether every entry that names a transfer names an id of at most `n`.
    pub fn refs_at_most(&self, n: usize) -> (r: bool)
        ensures
            r == forall|i: int|
                0 <= i < self@.len() ==> match (#[trigger] self@[i]).transfer_id {
                    Some(id) => id <= n,
                    None => true,
                },
    {
        let mut i: usize = 0;
        while i < self.entries.len()
            invariant
                i <= self@.len(),
                forall|j: int|
                    0 <= j < i ==> match (#[trigger] self@[j]).transfer_id {
                        Some(id) => id <= n,
                        None => true,
                    },
            decreases self@.len() - i,
        {
            match self.entries[i].transfer_id {
                Some(id) => {
                    if id as usize > n {
                        return false;
                    }
                },
                None => {},
            }
            i = i + 1;
        }
        true
    }

    /// Moves the points of transfer `t` as one step: re-reads both balances,
    /// re-checks that the sender has the points, then appends the sender's
    /// debit and the receiver's credit. On failure nothing is written.
    pub fn record_transfer(&mut self, t: &Transfer, from_seed: u64, to_seed: u64, at: Timestamp) -> (r:
        Result<(), TransferError>)
        requires
            old(self).well_formed(),
            t.from_user_id != t.to_user_id,
        ensures
            final(self).well_formed(),
            match move_error(old(self)@, *t, from_seed, to_seed) {
                Some(e) => r == Err::<(), TransferError>(e) && final(self)@ == old(self)@,
                None => r is Ok && records_transfer(
                    old(self)@,
                    final(self)@,
                    *t,
                    from_seed,
                    to_seed,
                    at,
                ),
            },
    {
        let from_balance = self.get_current_balance(t.from_user_id, from_seed);
        let to_balance = self.get_current_balance(t.to_user_id, to_seed);
        if from_balance < t.amount as u64 {
            return Err(TransferError::InsufficientPoints);
        }
        if to_balance > u64::MAX - t.amount as u64 {
            return Err(TransferError::BalanceOverflow);
        }
        if self.entries.len() > 0xffff_fffdusize {
            return Err(TransferError::StoreFull);
        }
        let ghost before = self@;
        let metadata = transfer_metadata(t.transfer_id, t.idem_key.as_str(), &t.note);
        let out_reference = "Transfer to user ".to_owned().concat(decimal_text(t.to_user_id).as_str());
        let in_reference = "Transfer from user ".to_owned().concat(
            decimal_text(t.from_user_id).as_str(),
        );
        let n = self.entries.len();
        self.entries.push(
            PointLedger {
                id: (n + 1) as u32,
                user_id: t.from_user_id,
                change: -(t.amount as i64),
                balance_after: from_balance - t.amount as u64,
                event_type: EventType::TransferOut,
                transfer_id: t.transfer_id,
                reference: Some(out_reference),
                metadata: Some(metadata.clone()),
                created_at: at,
            },
        );
        self.entries.push(
            PointLedger {
                id: (n + 2) as u32,
                user_id: t.to_user_id,
                change: t.amount as i64,
                balance_after: to_balance + t.amount as u64,
                event_type: EventType::TransferIn,
                transfer_id: t.transfer_id,
                reference: Some(in_reference),
                metadata: Some(metadata),
                created_at: at,
            },
        );
        assert(self@.subrange(0, n as int) =~= before);
        Ok(())
    }
}

} // verus!
