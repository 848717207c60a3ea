//! Invoices and their numbering.

use vstd::prelude::*;

use crate::ident::{digit_char, ObjectId};
use crate::store::{lemma_put_one_more, owned_by, put_all, set_all, Change, Owned, Patch, Record};
use crate::values::{copy_text, set_or_keep, Number, Timestamp};

verus! {

#[derive(Debug, Clone, PartialEq, Eq)]
pub struct InvoiceItem {
    pub description: String,
    pub quantity: Number,
    pub rate: Number,
    pub amount: Number,
}

#[derive(Debug, Clone, Copy, PartialEq, Eq, Structural)]
pub enum InvoiceStatus {
    Draft,
    Sent,
    Paid,
    Overdue,
}

#[derive(Debug, Clone, PartialEq, Eq)]
pub struct Invoice {
    pub id: Option<ObjectId>,
    pub user_id: ObjectId,
    pub client_id: ObjectId,
    pub invoice_number: String,
    pub date: Timestamp,
    pub due_date: Timestamp,
    pub items: Vec<InvoiceItem>,
    pub subtotal: Number,
    pub tax: Number,
    pub discount: Number,
    pub total: Number,
    pub currency: String,
    pub status: InvoiceStatus,
    pub notes: Option<String>,
    pub payment_terms: Option<String>,
    pub created_at: Timestamp,
    pub updated_at: Timestamp,
}

#[derive(Debug, Clone, PartialEq, Eq)]
pub struct CreateInvoiceRequest {
    pub client_id: String,
    pub items: Vec<InvoiceItem>,
    pub due_date: Timestamp,
    pub tax: Option<Number>,
    pub discount: Option<Number>,
    pub currency: Option<String>,
    pub notes: Option<String>,
    pub payment_terms: Option<String>,
}

#[derive(Debug, Clone, Copy, PartialEq, Eq, Structural)]
pub struct UpdateInvoiceStatusRequest {
    pub status: InvoiceStatus,
}

/// The sums of an invoice, worked out once by whoever creates it: the
/// subtotal over the amounts of its items, and the total, which is the
/// subtotal plus tax minus discount. They are stored as given and never
/// worked out again.
#[derive(Debug, Clone, Copy, PartialEq, Eq, Structural)]
pub struct Totals {
    pub subtotal: Number,
    pub total: Number,
}

/// What an invoice holds.
pub struct InvoiceView {
    pub id: Option<ObjectId>,
    pub user_id: ObjectId,
    pub client_id: ObjectId,
    pub invoice_number: Seq<char>,
    pub date: Timestamp,
    pub due_date: Timestamp,
    pub items: Seq<InvoiceItem>,
    pub subtotal: Number,
    pub tax: Number,
    pub discount: Number,
    pub total: Number,
    pub currency: Seq<char>,
    pub status: InvoiceStatus,
    pub notes: Option<String>,
    pub payment_terms: Option<String>,
    pub created_at: Timestamp,
    pub updated_at: Timestamp,
}

impl View for Invoice {
    type V = InvoiceView;

    open spec fn view(&self) -> InvoiceView {
        InvoiceView {
            id: self.id,
            user_id: self.user_id,
            client_id: self.client_id,
            invoice_number: self.invoice_number@,
            date: self.date,
            due_date: self.due_date,
            items: self.items@,
            subtotal: self.subtotal,
            tax: self.tax,
            discount: self.discount,
            total: self.total,
            currency: self.currency@,
            status: self.status,
            notes: self.notes,
            payment_terms: self.payment_terms,
            created_at: self.created_at,
            updated_at: self.updated_at,
        }
    }
}

/// `n` in decimal digits, without leading zeros.
pub open spec fn decimal(n: nat) -> Seq<char>
    decreases n,
{
    if n < 10 {
        seq![digit_char(n)]
    } else {
        decimal(n / 10).push(digit_char(n % 10))
    }
}

/// `n` in decimal digits, with zeros in front up to `width` digits; a
/// longer number is written in full.
pub open spec fn zero_padded(n: nat, width: nat) -> Seq<char> {
    let digits = decimal(n);
    if digits.len() >= width {
        digits
    } else {
        Seq::new((width - digits.len()) as nat, |i: int| '0') + digits
    }
}

/// The number of the invoice that an owner creates when they already
/// have `count` invoices: `INV-` and the position of the new invoice
/// among the owner's, in at least five digits.
pub open spec fn invoice_number_after(count: nat) -> Seq<char> {
    seq!['I', 'N', 'V', '-'] + zero_padded(count + 1, 5)
}

pub proof fn lemma_decimal_len(n: nat)
    ensures
        n < 10 ==> decimal(n).len() == 1,
        10 <= n < 100 ==> decimal(n).len() == 2,
        100 <= n < 1000 ==> decimal(n).len() == 3,
        1000 <= n < 10000 ==> decimal(n).len() == 4,
        n >= 10000 ==> decimal(n).len() >= 5,
    decreases n,
{
    if n >= 10 {
        lemma_decimal_len(n / 10);
    }
}

fn push_decimal(out: &mut String, n: u128)
    ensures
        final(out)@ == old(out)@ + decimal(n as nat),
    decreases n,
{
    if n < 10 {
        out.push(decimal_digit(n as u8));
        assert(out@ =~= old(out)@ + decimal(n as nat));
    } else {
        push_decimal(out, n / 10);
        out.push(decimal_digit((n % 10) as u8));
        assert(out@ =~= old(out)@ + decimal(n as nat));
    }
}

fn decimal_digit(d: u8) -> (c: char)
    requires
        d < 10,
    ensures
        c == digit_char(d as nat),
{
    (48u8 + d) as char
}

/// The number of an owner's next invoice, given how many they have.
pub fn invoice_number(count: u64) -> (text: String)
    ensures
        text@ == invoice_number_after(count as nat),
{
    let n: u128 = count as u128 + 1;
    let mut out = String::new();
    out.push('I');
    out.push('N');
    out.push('V');
    out.push('-');
    let zeros: usize = if n < 10 {
        4
    } else if n < 100 {
        3
    } else if n < 1000 {
        2
    } else if n < 10000 {
        1
    } else {
        0
    };
    proof {
        lemma_decimal_len(n as nat);
    }
    let mut i: usize = 0;
    while i < zeros
        invariant
            i <= zeros,
            out@ == seq!['I', 'N', 'V', '-'] + Seq::new(i as nat, |k: int| '0'),
        decreases zeros - i,
    {
        out.push('0');
        assert(out@ =~= seq!['I', 'N', 'V', '-'] + Seq::new((i + 1) as nat, |k: int| '0'));
        i += 1;
    }
    push_decimal(&mut out, n);
    proof {
        let digits = decimal(n as nat);
        if zeros == 0 {
            assert(Seq::new(0nat, |k: int| '0') =~= Seq::<char>::empty());
            assert(out@ =~= seq!['I', 'N', 'V', '-'] + digits);
        } else {
            assert(out@ =~= seq!['I', 'N', 'V', '-'] + (Seq::new(
                (5 - digits.len()) as nat,
                |k: int| '0',
            ) + digits));
        }
    }
    out
}

impl InvoiceItem {
    pub fn duplicate(&self) -> (copy: InvoiceItem)
        ensures
            copy == *self,
    {
        InvoiceItem {
            description: self.description.clone(),
            quantity: self.quantity,
            rate: self.rate,
            amount: self.amount,
        }
    }
}

fn copy_items(items: &Vec<InvoiceItem>) -> (copy: Vec<InvoiceItem>)
    ensures
        copy@ == items@,
{
    let mut out: Vec<InvoiceItem> = Vec::new();
    let mut i: usize = 0;
    while i < items.len()
        invariant
            i <= items.len(),
            out@ == items@.take(i as int),
        decreases items.len() - i,
    {
        out.push(items[i].duplicate());
        assert(out@ =~= items@.take(i + 1));
        i += 1;
    }
    assert(items@.take(i as int) =~= items@);
    out
}

impl Record for Invoice {
    open spec fn id_of(v: InvoiceView) -> Option<ObjectId> {
        v.id
    }

    open spec fn with_id(v: InvoiceView, id: ObjectId) -> InvoiceView {
        InvoiceView { id: Some(id), ..v }
    }

    proof fn lemma_with_id(v: InvoiceView, id: ObjectId) {
    }

    fn key(&self) -> (k: Option<ObjectId>) {
        self.id
    }

    fn set_key(&mut self, id: ObjectId) {
        self.id = Some(id);
    }

    fn duplicate(&self) -> (copy: Self) {
        Invoice {
            id: self.id,
            user_id: self.user_id,
            client_id: self.client_id,
            invoice_number: self.invoice_number.clone(),
            date: self.date,
            due_date: self.due_date,
            items: copy_items(&self.items),
            subtotal: self.subtotal,
            tax: self.tax,
            discount: self.discount,
            total: self.total,
            currency: self.currency.clone(),
            status: self.status,
            notes: copy_text(&self.notes),
            payment_terms: copy_text(&self.payment_terms),
            created_at: self.created_at,
            updated_at: self.updated_at,
        }
    }
}

impl Owned for Invoice {
    open spec fn owner_of(v: InvoiceView) -> ObjectId {
        v.user_id
    }

    proof fn lemma_with_id_keeps_owner(v: InvoiceView, id: ObjectId) {
    }

    fn owner_key(&self) -> (k: ObjectId) {
        self.user_id
    }
}

impl Invoice {
    /// The record that a request to create an invoice describes, once
    /// the client it names has been read as `client_id`, for an owner who
    /// has `count` invoices so far. A new invoice is a draft, dated now.
    /// Tax and discount are zero and the currency is `USD` unless the
    /// request says otherwise.
    pub open spec fn described(
        owner: ObjectId,
        client_id: ObjectId,
        payload: CreateInvoiceRequest,
        sums: Totals,
        count: nat,
        now: Timestamp,
    ) -> InvoiceView {
        InvoiceView {
            id: None,
            user_id: owner,
            client_id,
            invoice_number: invoice_number_after(count),
            date: now,
            due_date: payload.due_date,
            items: payload.items@,
            subtotal: sums.subtotal,
            tax: set_or_keep(payload.tax, Number { bits: 0 }),
            discount: set_or_keep(payload.discount, Number { bits: 0 }),
            total: sums.total,
            currency: match payload.currency {
                Some(c) => c@,
                None => seq!['U', 'S', 'D'],
            },
            status: InvoiceStatus::Draft,
            notes: payload.notes,
            payment_terms: payload.payment_terms,
            created_at: now,
            updated_at: now,
        }
    }

    pub fn new(
        owner: ObjectId,
        client_id: ObjectId,
        payload: CreateInvoiceRequest,
        sums: Totals,
        count: u64,
        now: Timestamp,
    ) -> (invoice: Invoice)
        ensures
            invoice@ == Invoice::described(owner, client_id, payload, sums, count as nat, now),
    {
        let currency = match payload.currency {
            Some(c) => c,
            None => {
                let mut c = String::new();
                c.push('U');
                c.push('S');
                c.push('D');
                assert(c@ =~= seq!['U', 'S', 'D']);
                c
            },
        };
        Invoice {
            id: None,
            user_id: owner,
            client_id,
            invoice_number: invoice_number(count),
            date: now,
            due_date: payload.due_date,
            items: payload.items,
            subtotal: sums.subtotal,
            tax: match payload.tax {
                Some(t) => t,
                None => Number::zero(),
            },
            discount: match payload.discount {
                Some(d) => d,
                None => Number::zero(),
            },
            total: sums.total,
            currency,
            status: InvoiceStatus::Draft,
            notes: payload.notes,
            payment_terms: payload.payment_terms,
            created_at: now,
            updated_at: now,
        }
    }
}

/// One field of an invoice set to a new value. The number and the
/// sums are not among the fields that can be set.
#[derive(Debug, Clone, Copy, PartialEq, Eq)]
pub enum InvoiceChange {
    Status(InvoiceStatus),
    UpdatedAt(Timestamp),
}

impl Change<Invoice> for InvoiceChange {
    open spec fn put(self, v: InvoiceView) -> InvoiceView {
        match self {
            InvoiceChange::Status(x) => InvoiceView { status: x, ..v },
            InvoiceChange::UpdatedAt(t) => InvoiceView { updated_at: t, ..v },
        }
    }

    proof fn lemma_put_keeps_identity(self, v: InvoiceView) {
    }

    fn set(&self, doc: &mut Invoice) {
        match self {
            InvoiceChange::Status(x) => {
                doc.status = *x;
            },
            InvoiceChange::UpdatedAt(t) => {
                doc.updated_at = *t;
            },
        }
    }
}

impl UpdateInvoiceStatusRequest {
    /// The changes that the request asks for: the status, and the time
    /// of the change.
    pub fn changes(self, now: Timestamp) -> (changes: Vec<InvoiceChange>)
        ensures
            changes@ == seq![InvoiceChange::Status(self.status), InvoiceChange::UpdatedAt(now)],
            forall|v: InvoiceView| #[trigger]
                put_all::<Invoice, InvoiceChange>(changes@, v) == self.applied(v, now),
    {
        let mut out: Vec<InvoiceChange> = Vec::new();
        let status = InvoiceChange::Status(self.status);
        let at = InvoiceChange::UpdatedAt(now);
        out.push(status);
        out.push(at);
        proof {
            assert forall|v: InvoiceView| #[trigger]
                put_all::<Invoice, InvoiceChange>(out@, v) == self.applied(v, now) by {
                let none = Seq::<InvoiceChange>::empty();
                lemma_put_one_more::<Invoice, InvoiceChange>(none, status, v);
                lemma_put_one_more::<Invoice, InvoiceChange>(none.push(status), at, v);
                assert(none.push(status).push(at) =~= out@);
            }
            assert(out@ =~= seq![status, at]);
        }
        out
    }
}

impl Patch<Invoice> for UpdateInvoiceStatusRequest {
    /// Only the status and the time of the last change are set. The
    /// number and the sums stay as they were made.
    open spec fn applied(self, v: InvoiceView, now: Timestamp) -> InvoiceView {
        InvoiceView { status: self.status, updated_at: now, ..v }
    }

    proof fn lemma_applied_keeps_identity(self, v: InvoiceView, now: Timestamp) {
    }

    fn apply(self, doc: &mut Invoice, now: Timestamp) {
        let changes = self.changes(now);
        set_all(&changes, doc);
    }
}

/// Invoices are counted for each owner apart. An invoice that another
/// owner creates leaves the count of this owner, and so the number of
/// their next invoice, as it is; an invoice of their own adds one.
pub proof fn lemma_invoices_are_counted_per_owner(docs: Seq<InvoiceView>, owner: ObjectId, added: InvoiceView)
    ensures
        added.user_id != owner ==> owned_by::<Invoice>(docs.push(added), owner) == owned_by::<Invoice>(
            docs,
            owner,
        ),
        added.user_id == owner ==> owned_by::<Invoice>(docs.push(added), owner).len()
            == owned_by::<Invoice>(docs, owner).len() + 1,
{
    reveal(Seq::filter);
    assert(docs.push(added).drop_last() =~= docs);
}

/// The first invoices of an owner are numbered `INV-00001` and
/// `INV-00002`.
pub proof fn lemma_first_invoice_numbers()
    ensures
        invoice_number_after(0) == seq!['I', 'N', 'V', '-', '0', '0', '0', '0', '1'],
        invoice_number_after(1) == seq!['I', 'N', 'V', '-', '0', '0', '0', '0', '2'],
{
    reveal_with_fuel(decimal, 2);
    assert(decimal(1) =~= seq!['1']);
    assert(decimal(2) =~= seq!['2']);
    assert(invoice_number_after(0) =~= seq!['I', 'N', 'V', '-', '0', '0', '0', '0', '1']);
    assert(invoice_number_after(1) =~= seq!['I', 'N', 'V', '-', '0', '0', '0', '0', '2']);
}

} // verus!
