use lightning_terminal::models::{Bolt11, Invoice, InvoiceId, Payment, PaymentStatus, Sats, UnixTimestamp};
use lightning_terminal::terminal::{AppEvent, StateMachineError, Terminal, TerminalState};
use lightning_terminal::ui::Screen;

fn invoice(amount: u64) -> Invoice {
    Invoice::new(
        InvoiceId::new("01JTEST").unwrap(),
        Sats::new(amount).unwrap(),
        Bolt11::new("lnbc10000n1ptest").unwrap(),
        UnixTimestamp::from_secs(1_786_383_000),
    )
}

fn awaiting_payment(invoice: &Invoice) -> Terminal {
    let mut terminal = Terminal::new();
    terminal.apply(AppEvent::BootCompleted { provisioned: true }).unwrap();
    terminal.apply(AppEvent::WifiConnected).unwrap();
    terminal.apply(AppEvent::AmountConfirmed(Sats::new(10_000).unwrap())).unwrap();
    terminal.apply(AppEvent::InvoiceCreated(invoice.clone())).unwrap();
    terminal
}

#[test]
fn boot_routes_to_provisioning_when_not_configured() {
    let mut terminal = Terminal::new();

    let state = terminal.apply(AppEvent::BootCompleted { provisioned: false }).unwrap();

    assert_eq!(state, &TerminalState::Provisioning);
}

#[test]
fn idle_amount_confirmation_starts_invoice_creation() {
    let mut terminal = Terminal::new();
    terminal.apply(AppEvent::BootCompleted { provisioned: true }).unwrap();
    terminal.apply(AppEvent::WifiConnected).unwrap();

    let state = terminal.apply(AppEvent::AmountConfirmed(Sats::new(10_000).unwrap())).unwrap();

    assert_eq!(
        state,
        &TerminalState::CreatingInvoice {
            amount: Sats::new(10_000).unwrap()
        }
    );
}

#[test]
fn created_invoice_moves_terminal_to_awaiting_payment() {
    let mut terminal = Terminal::new();
    let invoice = invoice(10_000);

    terminal.apply(AppEvent::BootCompleted { provisioned: true }).unwrap();
    terminal.apply(AppEvent::WifiConnected).unwrap();
    terminal.apply(AppEvent::AmountConfirmed(Sats::new(10_000).unwrap())).unwrap();
    let state = terminal.apply(AppEvent::InvoiceCreated(invoice.clone())).unwrap();

    assert_eq!(state, &TerminalState::AwaitingPayment { invoice });
}

#[test]
fn paid_invoice_moves_terminal_to_payment_received() {
    let mut terminal = Terminal::new();
    let invoice = invoice(10_000);
    let payment = Payment::received(
        invoice.id.clone(),
        invoice.amount,
        UnixTimestamp::from_secs(1_786_383_010),
    );

    terminal.apply(AppEvent::BootCompleted { provisioned: true }).unwrap();
    terminal.apply(AppEvent::WifiConnected).unwrap();
    terminal.apply(AppEvent::AmountConfirmed(Sats::new(10_000).unwrap())).unwrap();
    terminal.apply(AppEvent::InvoiceCreated(invoice)).unwrap();
    let state = terminal.apply(AppEvent::PaymentReceived(payment.clone())).unwrap();

    assert_eq!(state, &TerminalState::PaymentReceived { payment });
}

#[test]
fn duplicate_payment_event_is_idempotent() {
    let mut terminal = Terminal::new();
    let invoice = invoice(10_000);
    let payment = Payment::received(
        invoice.id.clone(),
        invoice.amount,
        UnixTimestamp::from_secs(1_786_383_010),
    );

    terminal.apply(AppEvent::BootCompleted { provisioned: true }).unwrap();
    terminal.apply(AppEvent::WifiConnected).unwrap();
    terminal.apply(AppEvent::AmountConfirmed(Sats::new(10_000).unwrap())).unwrap();
    terminal.apply(AppEvent::InvoiceCreated(invoice)).unwrap();
    terminal.apply(AppEvent::PaymentReceived(payment.clone())).unwrap();
    let state = terminal.apply(AppEvent::PaymentReceived(payment.clone())).unwrap();

    assert_eq!(state, &TerminalState::PaymentReceived { payment });
}

#[test]
fn wifi_loss_during_payment_preserves_active_invoice() {
    let mut terminal = Terminal::new();
    let invoice = invoice(10_000);

    terminal.apply(AppEvent::BootCompleted { provisioned: true }).unwrap();
    terminal.apply(AppEvent::WifiConnected).unwrap();
    terminal.apply(AppEvent::AmountConfirmed(Sats::new(10_000).unwrap())).unwrap();
    terminal.apply(AppEvent::InvoiceCreated(invoice.clone())).unwrap();
    let state = terminal.apply(AppEvent::WifiDisconnected).unwrap();

    assert_eq!(
        state,
        &TerminalState::NetworkUnavailable {
            invoice: Some(invoice)
        }
    );
}

#[test]
fn expired_invoice_moves_terminal_to_expired() {
    let mut terminal = Terminal::new();
    let invoice = invoice(10_000);
    let invoice_id = invoice.id.clone();

    terminal.apply(AppEvent::BootCompleted { provisioned: true }).unwrap();
    terminal.apply(AppEvent::WifiConnected).unwrap();
    terminal.apply(AppEvent::AmountConfirmed(Sats::new(10_000).unwrap())).unwrap();
    terminal.apply(AppEvent::InvoiceCreated(invoice)).unwrap();
    let state = terminal.apply(AppEvent::InvoiceExpired(invoice_id.clone())).unwrap();

    assert_eq!(state, &TerminalState::Expired { invoice_id });
}

#[test]
fn reconnecting_resumes_the_same_invoice() {
    let invoice = invoice(10_000);
    let mut terminal = awaiting_payment(&invoice);
    terminal.apply(AppEvent::WifiDisconnected).unwrap();

    let state = terminal.apply(AppEvent::WifiConnected).unwrap();

    assert_eq!(state, &TerminalState::AwaitingPayment { invoice: invoice.clone() });
    assert_eq!(terminal.current_invoice(), Some(&invoice));
}

#[test]
fn refused_event_leaves_terminal_unchanged() {
    let invoice = invoice(10_000);
    let mut terminal = awaiting_payment(&invoice);
    let before = terminal.clone();

    let result = terminal.apply(AppEvent::ProvisioningCompleted);

    assert_eq!(
        result,
        Err(StateMachineError::InvalidTransition {
            state: "AwaitingPayment",
            event: "ProvisioningCompleted"
        })
    );
    assert_eq!(terminal, before);
}

#[test]
fn payment_for_another_invoice_is_a_mismatch() {
    let invoice = invoice(10_000);
    let mut terminal = awaiting_payment(&invoice);
    let payment = Payment::received(
        InvoiceId::new("other-invoice").unwrap(),
        invoice.amount,
        UnixTimestamp::from_secs(1_786_383_010),
    );

    let result = terminal.apply(AppEvent::PaymentReceived(payment));

    assert_eq!(result, Err(StateMachineError::InvoiceMismatch));
    assert_eq!(terminal.state(), &TerminalState::AwaitingPayment { invoice });
}

#[test]
fn unpaid_payment_is_not_confirmed() {
    let invoice = invoice(10_000);
    let mut terminal = awaiting_payment(&invoice);
    let mut payment = Payment::received(
        invoice.id.clone(),
        invoice.amount,
        UnixTimestamp::from_secs(1_786_383_010),
    );
    payment.status = PaymentStatus::Pending;

    let result = terminal.apply(AppEvent::PaymentReceived(payment));

    assert_eq!(result, Err(StateMachineError::PaymentNotConfirmed));
}

#[test]
fn invoice_for_another_amount_is_a_mismatch() {
    let mut terminal = Terminal::new();
    terminal.apply(AppEvent::BootCompleted { provisioned: true }).unwrap();
    terminal.apply(AppEvent::WifiConnected).unwrap();
    terminal.apply(AppEvent::AmountConfirmed(Sats::new(5_000).unwrap())).unwrap();

    let result = terminal.apply(AppEvent::InvoiceCreated(invoice(10_000)));

    assert_eq!(result, Err(StateMachineError::InvoiceMismatch));
}

#[test]
fn expiry_of_another_invoice_is_a_mismatch() {
    let invoice = invoice(10_000);
    let mut terminal = awaiting_payment(&invoice);

    let result = terminal.apply(AppEvent::InvoiceExpired(InvoiceId::new("other").unwrap()));

    assert_eq!(result, Err(StateMachineError::InvoiceMismatch));
}

#[test]
fn cancel_and_retry_return_to_idle() {
    let invoice = invoice(10_000);
    let mut terminal = awaiting_payment(&invoice);
    assert_eq!(terminal.apply(AppEvent::CancelRequested).unwrap(), &TerminalState::Idle);
    assert_eq!(terminal.current_invoice(), None);

    terminal.apply(AppEvent::ErrorOccurred { reason: "display".to_string() }).unwrap();
    assert_eq!(terminal.apply(AppEvent::RetryRequested).unwrap(), &TerminalState::Idle);
}

#[test]
fn amount_entry_and_update_cycle() {
    let mut terminal = Terminal::new();
    terminal.apply(AppEvent::BootCompleted { provisioned: true }).unwrap();
    terminal.apply(AppEvent::WifiConnected).unwrap();
    terminal.apply(AppEvent::EnterAmountRequested).unwrap();
    let state = terminal.apply(AppEvent::AmountChanged(Sats::new(21).unwrap())).unwrap();
    assert_eq!(state, &TerminalState::EnteringAmount { amount: Some(Sats::new(21).unwrap()) });

    assert_eq!(terminal.apply(AppEvent::UpdateStarted).unwrap(), &TerminalState::Updating);
    assert_eq!(terminal.apply(AppEvent::UpdateFinished).unwrap(), &TerminalState::Connecting);
}

#[test]
fn creation_failure_reports_error_state() {
    let mut terminal = Terminal::new();
    terminal.apply(AppEvent::BootCompleted { provisioned: true }).unwrap();
    terminal.apply(AppEvent::WifiConnected).unwrap();
    terminal.apply(AppEvent::AmountConfirmed(Sats::new(10_000).unwrap())).unwrap();

    let state = terminal
        .apply(AppEvent::InvoiceCreationFailed { reason: "provider down".to_string() })
        .unwrap();

    assert_eq!(state, &TerminalState::Error { reason: "provider down".to_string() });
}

#[test]
fn state_machine_error_texts() {
    let invalid = StateMachineError::InvalidTransition { state: "Idle", event: "UpdateFinished" };
    assert_eq!(invalid.to_string(), "invalid transition from Idle with event UpdateFinished");
    assert_eq!(
        StateMachineError::InvoiceMismatch.to_string(),
        "payment event does not match the active invoice"
    );
    assert_eq!(
        StateMachineError::PaymentNotConfirmed.to_string(),
        "payment event is not a paid confirmation"
    );
}

#[test]
fn names_of_states_and_events() {
    assert_eq!(TerminalState::Booting.name(), "Booting");
    assert_eq!(TerminalState::NetworkUnavailable { invoice: None }.name(), "NetworkUnavailable");
    assert_eq!(AppEvent::WifiDisconnected.name(), "WifiDisconnected");
    assert_eq!(AppEvent::AmountChanged(Sats::new(1).unwrap()).name(), "AmountChanged");
}

#[test]
fn screens_follow_terminal_state() {
    let invoice = invoice(10_000);
    let terminal = awaiting_payment(&invoice);
    let screen = Screen::from_terminal_state(terminal.state());
    assert_eq!(screen, Screen::Invoice { invoice });
    assert_eq!(screen.title(), "Waiting for payment");
    assert_eq!(Screen::from_terminal_state(&TerminalState::Idle), Screen::Home);
    assert_eq!(Screen::from_terminal_state(&TerminalState::Booting).title(), "Bitcoin Lightning Terminal");
}
