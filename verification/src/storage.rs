//! In-memory stores of the gateway: invoices by id, and the invoice created
//! for each (device, idempotency key) pair.
use vstd::hash_map::StringHashMap;
use vstd::prelude::*;

use crate::models::{
    is_identifier_char, valid_identifier, DeviceId, Invoice, InvoiceId, PaymentStatus,
    MAX_IDENTIFIER_LEN,
};
use crate::protocol::{valid_token, IdempotencyKey, MAX_TOKEN_LEN};

verus! {

/// Invoices, each filed under its own id.
pub struct InvoiceStore {
    invoices: StringHashMap<Invoice>,
}

impl View for InvoiceStore {
    type V = Map<Seq<char>, Invoice>;

    closed spec fn view(&self) -> Map<Seq<char>, Invoice> {
        self.invoices@
    }
}

/// `invoice` after it was marked paid.
pub open spec fn paid(invoice: Invoice) -> Invoice {
    Invoice { status: PaymentStatus::Paid, ..invoice }
}

impl InvoiceStore {
    #[verifier::type_invariant]
    spec fn filed_by_id(self) -> bool {
        forall|id: Seq<char>| #[trigger] self.invoices@.contains_key(id) ==> self.invoices@[id].id@ == id
    }

    /// An empty store.
    pub fn new() -> (store: Self)
        ensures
            store@ == Map::<Seq<char>, Invoice>::empty(),
    {
        InvoiceStore { invoices: StringHashMap::new() }
    }

    /// Files `invoice` under its id, replacing what was filed there.
    pub fn insert(&mut self, invoice: Invoice)
        ensures
            final(self)@ == old(self)@.insert(invoice.id@, invoice),
    {
        proof {
            use_type_invariant(&*self);
        }
        let key = invoice.id.as_str().to_owned();
        let mut invoices = StringHashMap::new();
        std::mem::swap(&mut invoices, &mut self.invoices);
        invoices.insert(key, invoice);
        self.invoices = invoices;
    }

    /// The invoice filed under `invoice_id`.
    pub fn get(&self, invoice_id: &InvoiceId) -> (found: Option<Invoice>)
        ensures
            match found {
                Some(invoice) => self@.contains_key(invoice_id@) && invoice == self@[invoice_id@],
                None => !self@.contains_key(invoice_id@),
            },
    {
        match self.invoices.get(invoice_id.as_str()) {
            Some(invoice) => Some(invoice.clone()),
            None => None,
        }
    }

    /// Marks the invoice filed under `invoice_id` paid and returns it; `None`,
    /// with nothing changed, when there is no such invoice.
    pub fn mark_paid(&mut self, invoice_id: &InvoiceId) -> (updated: Option<Invoice>)
        ensures
            if old(self)@.contains_key(invoice_id@) {
                &&& updated == Some(paid(old(self)@[invoice_id@]))
                &&& final(self)@ == old(self)@.insert(invoice_id@, paid(old(self)@[invoice_id@]))
            } else {
                &&& updated is None
                &&& final(self)@ == old(self)@
            },
    {
        proof {
            use_type_invariant(&*self);
        }
        let mut invoice = match self.invoices.get(invoice_id.as_str()) {
            Some(invoice) => invoice.clone(),
            None => return None,
        };
        invoice.mark_paid();
        let key = invoice_id.as_str().to_owned();
        let mut invoices = StringHashMap::new();
        std::mem::swap(&mut invoices, &mut self.invoices);
        invoices.insert(key, invoice.clone());
        self.invoices = invoices;
        Some(invoice)
    }
}

impl Default for InvoiceStore {
    fn default() -> (store: Self)
        ensures
            store@ == Map::<Seq<char>, Invoice>::empty(),
    {
        InvoiceStore::new()
    }
}

/// The text under which the record of `device` and `key` is filed: the two
/// joined by a colon, which neither of them can hold.
pub open spec fn scope_key(device: Seq<char>, key: Seq<char>) -> Seq<char> {
    device + seq![':'] + key
}

/// `device` and `key` are a device id and an idempotency key that the gateway accepts.
pub open spec fn valid_scope(device: Seq<char>, key: Seq<char>) -> bool {
    valid_identifier(device, MAX_IDENTIFIER_LEN) && valid_token(key, MAX_TOKEN_LEN)
}

/// The invoice id recorded for each (device, idempotency key) pair.
pub struct IdempotencyStore {
    records: StringHashMap<InvoiceId>,
}

impl View for IdempotencyStore {
    type V = Map<(Seq<char>, Seq<char>), InvoiceId>;

    closed spec fn view(&self) -> Map<(Seq<char>, Seq<char>), InvoiceId> {
        Map::new(
            |scope: (Seq<char>, Seq<char>)|
                valid_scope(scope.0, scope.1) && self.records@.contains_key(
                    scope_key(scope.0, scope.1),
                ),
            |scope: (Seq<char>, Seq<char>)| self.records@[scope_key(scope.0, scope.1)],
        )
    }
}

/// Distinct accepted (device, key) pairs are filed under distinct texts.
pub proof fn lemma_scope_key_injective(d1: Seq<char>, k1: Seq<char>, d2: Seq<char>, k2: Seq<char>)
    requires
        valid_scope(d1, k1),
        valid_scope(d2, k2),
        scope_key(d1, k1) == scope_key(d2, k2),
    ensures
        d1 == d2,
        k1 == k2,
{
    let s = scope_key(d1, k1);
    if d1.len() < d2.len() {
        assert(s[d1.len() as int] == ':');
        assert(s[d1.len() as int] == d2[d1.len() as int]);
        assert(is_identifier_char(d2[d1.len() as int]));
    } else if d2.len() < d1.len() {
        assert(s[d2.len() as int] == ':');
        assert(s[d2.len() as int] == d1[d2.len() as int]);
        assert(is_identifier_char(d1[d2.len() as int]));
    }
    assert(d1 =~= s.subrange(0, d1.len() as int));
    assert(d2 =~= s.subrange(0, d2.len() as int));
    assert(k1 =~= s.subrange(d1.len() + 1int, s.len() as int));
    assert(k2 =~= s.subrange(d2.len() + 1int, s.len() as int));
}

fn scope_text(device: &DeviceId, key: &IdempotencyKey) -> (text: String)
    ensures
        text@ == scope_key(device@, key@),
        valid_scope(device@, key@),
{
    let text = String::from_str(device.as_str()).concat(":").concat(key.as_str());
    proof {
        reveal_strlit(":");
        assert(text@ =~= scope_key(device@, key@));
    }
    text
}

impl IdempotencyStore {
    /// An empty store.
    pub fn new() -> (store: Self)
        ensures
            store@ == Map::<(Seq<char>, Seq<char>), InvoiceId>::empty(),
    {
        let store = IdempotencyStore { records: StringHashMap::new() };
        assert(store@ =~= Map::<(Seq<char>, Seq<char>), InvoiceId>::empty());
        store
    }

    /// Records `invoice_id` for `device_id` and `idempotency_key`, replacing an
    /// earlier record of the pair.
    pub fn insert(&mut self, device_id: DeviceId, idempotency_key: IdempotencyKey, invoice_id: InvoiceId)
        ensures
            final(self)@ == old(self)@.insert((device_id@, idempotency_key@), invoice_id),
    {
        let text = scope_text(&device_id, &idempotency_key);
        self.records.insert(text, invoice_id);
        proof {
            let scope = (device_id@, idempotency_key@);
            assert forall|other: (Seq<char>, Seq<char>)|
                valid_scope(other.0, other.1) && other != scope implies scope_key(other.0, other.1)
                != scope_key(scope.0, scope.1) by {
                if scope_key(other.0, other.1) == scope_key(scope.0, scope.1) {
                    lemma_scope_key_injective(other.0, other.1, scope.0, scope.1);
                }
            }
            assert(self@ =~= old(self)@.insert(scope, invoice_id));
        }
    }

    /// The invoice id recorded for `device_id` and `idempotency_key`.
    pub fn get(&self, device_id: &DeviceId, idempotency_key: &IdempotencyKey) -> (found: Option<
        InvoiceId,
    >)
        ensures
            match found {
                Some(invoice_id) => self@.contains_key((device_id@, idempotency_key@))
                    && invoice_id == self@[(device_id@, idempotency_key@)],
                None => !self@.contains_key((device_id@, idempotency_key@)),
            },
    {
        let text = scope_text(device_id, idempotency_key);
        match self.records.get(text.as_str()) {
            Some(invoice_id) => Some(invoice_id.clone()),
            None => None,
        }
    }
}

impl Default for IdempotencyStore {
    fn default() -> (store: Self)
        ensures
            store@ == Map::<(Seq<char>, Seq<char>), InvoiceId>::empty(),
    {
        IdempotencyStore::new()
    }
}

/// Reading an invoice back after filing it gives the invoice; other ids keep
/// what they had.
pub proof fn law_invoice_read_after_write(store: Map<Seq<char>, Invoice>, invoice: Invoice, other: Seq<char>)
    ensures
        store.insert(invoice.id@, invoice).contains_key(invoice.id@),
        store.insert(invoice.id@, invoice)[invoice.id@] == invoice,
        other != invoice.id@ ==> store.insert(invoice.id@, invoice).contains_key(other)
            == store.contains_key(other) && store.insert(invoice.id@, invoice)[other] == store[other],
{
}

/// Marking an invoice paid changes its status to paid and nothing else.
pub proof fn law_mark_paid_changes_only_status(invoice: Invoice)
    ensures
        paid(invoice).status == PaymentStatus::Paid,
        paid(invoice).id == invoice.id,
        paid(invoice).amount == invoice.amount,
        paid(invoice).bolt11 == invoice.bolt11,
        paid(invoice).expires_at == invoice.expires_at,
        paid(paid(invoice)) == paid(invoice),
{
}

} // verus!
