use orbix_backend::config::Config;
use orbix_backend::database::{AppState, Database};
use orbix_backend::error::AppError;
use orbix_backend::handlers::invoices::{
    create_invoice, get_invoice, list_invoices, update_invoice_status,
};
use orbix_backend::ident::ObjectId;
use orbix_backend::middleware::auth::AuthUser;
use orbix_backend::models::invoice::{
    invoice_number, CreateInvoiceRequest, Invoice, InvoiceItem, InvoiceStatus, Totals,
    UpdateInvoiceStatusRequest,
};
use orbix_backend::values::Number;

const DAY: i64 = 86_400_000;
const T0: i64 = 1_700_000_000_000;
const A_CLIENT: &str = "0000000000000000000000aa";

fn invoices_state() -> AppState {
    AppState {
        db: Database::new(),
        config: Config::from_env(None, "secret".to_string(), None, None, None).unwrap(),
    }
}

fn biller(n: u64) -> AuthUser {
    AuthUser { user_id: ObjectId { hi: 2, lo: n } }
}

fn num(x: f64) -> Number {
    Number { bits: x.to_bits() }
}

fn line(description: &str, amount: f64) -> InvoiceItem {
    InvoiceItem { description: description.to_string(), quantity: num(1.0), rate: num(amount), amount: num(amount) }
}

fn sums_of(items: &[InvoiceItem], tax: f64, discount: f64) -> Totals {
    let subtotal: f64 = items.iter().map(|i| f64::from_bits(i.amount.bits)).sum();
    Totals { subtotal: num(subtotal), total: num(subtotal + tax - discount) }
}

fn request(items: Vec<InvoiceItem>, tax: Option<f64>, discount: Option<f64>) -> CreateInvoiceRequest {
    CreateInvoiceRequest {
        client_id: A_CLIENT.to_string(),
        items,
        due_date: T0 + 30 * DAY,
        tax: tax.map(num),
        discount: discount.map(num),
        currency: None,
        notes: None,
        payment_terms: Some("30 days".to_string()),
    }
}

#[test]
fn scenario_invoice_sums_and_numbers() {
    let mut state = invoices_state();
    let items = vec![line("design", 100.0), line("hosting", 50.0)];
    let sums = sums_of(&items, 10.0, 5.0);
    let first = create_invoice(&mut state, &biller(1), request(items.clone(), Some(10.0), Some(5.0)), sums, T0)
        .unwrap();
    assert_eq!(f64::from_bits(first.subtotal.bits), 150.0);
    assert_eq!(f64::from_bits(first.total.bits), 155.0);
    assert_eq!(f64::from_bits(first.tax.bits), 10.0);
    assert_eq!(f64::from_bits(first.discount.bits), 5.0);
    assert_eq!(first.invoice_number, "INV-00001");

    let other = create_invoice(&mut state, &biller(2), request(items.clone(), None, None), sums, T0).unwrap();
    assert_eq!(other.invoice_number, "INV-00001");
    let other = create_invoice(&mut state, &biller(2), request(items.clone(), None, None), sums, T0).unwrap();
    assert_eq!(other.invoice_number, "INV-00002");
    let other = create_invoice(&mut state, &biller(2), request(items.clone(), None, None), sums, T0).unwrap();
    assert_eq!(other.invoice_number, "INV-00003");

    let second = create_invoice(&mut state, &biller(1), request(items, Some(10.0), Some(5.0)), sums, T0 + 1)
        .unwrap();
    assert_eq!(second.invoice_number, "INV-00002");
}

#[test]
fn a_new_invoice_is_a_draft_in_usd_without_tax_or_discount() {
    let mut state = invoices_state();
    let items = vec![line("work", 80.0)];
    let sums = sums_of(&items, 0.0, 0.0);
    let inv = create_invoice(&mut state, &biller(1), request(items.clone(), None, None), sums, T0).unwrap();
    assert_eq!(
        inv,
        Invoice {
            id: inv.id,
            user_id: biller(1).user_id,
            client_id: ObjectId { hi: 0, lo: 0xaa },
            invoice_number: "INV-00001".to_string(),
            date: T0,
            due_date: T0 + 30 * DAY,
            items,
            subtotal: num(80.0),
            tax: num(0.0),
            discount: num(0.0),
            total: num(80.0),
            currency: "USD".to_string(),
            status: InvoiceStatus::Draft,
            notes: None,
            payment_terms: Some("30 days".to_string()),
            created_at: T0,
            updated_at: T0,
        }
    );
    assert_eq!(inv.tax.bits, 0);
    assert_eq!(Number::zero(), num(0.0));
}

#[test]
fn a_given_currency_is_kept() {
    let mut state = invoices_state();
    let mut req = request(vec![], None, None);
    req.currency = Some("EUR".to_string());
    let inv = create_invoice(&mut state, &biller(1), req, sums_of(&[], 0.0, 0.0), T0).unwrap();
    assert_eq!(inv.currency, "EUR");
    assert_eq!(inv.items, vec![]);
}

#[test]
fn an_invoice_for_a_malformed_client_is_a_bad_request() {
    let mut state = invoices_state();
    let mut req = request(vec![], None, None);
    req.client_id = "acme".to_string();
    assert_eq!(
        create_invoice(&mut state, &biller(1), req, sums_of(&[], 0.0, 0.0), T0),
        Err(AppError::BadRequest("Invalid client ID".to_string()))
    );
    assert_eq!(state.db.invoices.len(), 0);
}

#[test]
fn invoice_numbers_count_in_at_least_five_digits() {
    assert_eq!(invoice_number(0), "INV-00001");
    assert_eq!(invoice_number(1), "INV-00002");
    assert_eq!(invoice_number(8), "INV-00009");
    assert_eq!(invoice_number(9), "INV-00010");
    assert_eq!(invoice_number(98), "INV-00099");
    assert_eq!(invoice_number(99), "INV-00100");
    assert_eq!(invoice_number(999), "INV-01000");
    assert_eq!(invoice_number(9_998), "INV-09999");
    assert_eq!(invoice_number(9_999), "INV-10000");
    assert_eq!(invoice_number(99_998), "INV-99999");
    assert_eq!(invoice_number(99_999), "INV-100000");
    assert_eq!(invoice_number(1_234_566), "INV-1234567");
    assert_eq!(invoice_number(u64::MAX), "INV-18446744073709551616");
}

#[test]
fn invoice_numbers_agree_with_the_standard_formatting() {
    for count in [0u64, 5, 41, 123, 4_095, 65_535, 1_000_000, u64::MAX - 1] {
        assert_eq!(invoice_number(count), format!("INV-{:05}", count as u128 + 1));
    }
}

#[test]
fn status_update_changes_status_and_time_only() {
    let mut state = invoices_state();
    let items = vec![line("work", 80.0)];
    let inv = create_invoice(&mut state, &biller(1), request(items.clone(), None, None), sums_of(&items, 0.0, 0.0), T0)
        .unwrap();
    let id = inv.id.unwrap().to_hex();
    let paid = update_invoice_status(
        &mut state,
        &biller(1),
        &id,
        UpdateInvoiceStatusRequest { status: InvoiceStatus::Paid },
        T0 + DAY,
    )
    .unwrap();
    assert_eq!(paid, Invoice { status: InvoiceStatus::Paid, updated_at: T0 + DAY, ..inv });
    assert_eq!(get_invoice(&state, &biller(1), &id), Ok(paid));
}

#[test]
fn invoices_of_another_owner_are_not_found() {
    let mut state = invoices_state();
    let inv = create_invoice(&mut state, &biller(1), request(vec![], None, None), sums_of(&[], 0.0, 0.0), T0)
        .unwrap();
    let id = inv.id.unwrap().to_hex();
    let missing = AppError::NotFound("Invoice not found".to_string());
    assert_eq!(get_invoice(&state, &biller(2), &id), Err(missing.clone()));
    assert_eq!(
        update_invoice_status(
            &mut state,
            &biller(2),
            &id,
            UpdateInvoiceStatusRequest { status: InvoiceStatus::Paid },
            T0 + 1
        ),
        Err(missing)
    );
    assert_eq!(get_invoice(&state, &biller(1), &id), Ok(inv.clone()));
    assert_eq!(list_invoices(&state, &biller(1)), vec![inv]);
    assert_eq!(list_invoices(&state, &biller(2)), vec![]);
    assert_eq!(get_invoice(&state, &biller(1), "1"), Err(AppError::BadRequest("Invalid ID".to_string())));
}
