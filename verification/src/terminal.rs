//! Hardware-independent terminal application state machine.
use vstd::prelude::*;

use crate::models::{Invoice, InvoiceId, Payment, PaymentStatus, Sats};

verus! {

/// Where the payment terminal stands.
#[derive(Debug, PartialEq, Eq)]
pub enum TerminalState {
    Booting,
    Provisioning,
    Connecting,
    Idle,
    EnteringAmount { amount: Option<Sats> },
    CreatingInvoice { amount: Sats },
    AwaitingPayment { invoice: Invoice },
    PaymentReceived { payment: Payment },
    Expired { invoice_id: InvoiceId },
    NetworkUnavailable { invoice: Option<Invoice> },
    Error { reason: String },
    Updating,
}

impl Clone for TerminalState {
    fn clone(&self) -> (copy: Self)
        ensures
            copy == *self,
    {
        match self {
            TerminalState::Booting => TerminalState::Booting,
            TerminalState::Provisioning => TerminalState::Provisioning,
            TerminalState::Connecting => TerminalState::Connecting,
            TerminalState::Idle => TerminalState::Idle,
            TerminalState::EnteringAmount { amount } => TerminalState::EnteringAmount {
                amount: *amount,
            },
            TerminalState::CreatingInvoice { amount } => TerminalState::CreatingInvoice {
                amount: *amount,
            },
            TerminalState::AwaitingPayment { invoice } => TerminalState::AwaitingPayment {
                invoice: invoice.clone(),
            },
            TerminalState::PaymentReceived { payment } => TerminalState::PaymentReceived {
                payment: payment.clone(),
            },
            TerminalState::Expired { invoice_id } => TerminalState::Expired {
                invoice_id: invoice_id.clone(),
            },
            TerminalState::NetworkUnavailable { invoice } => TerminalState::NetworkUnavailable {
                invoice: clone_invoice_option(invoice),
            },
            TerminalState::Error { reason } => TerminalState::Error { reason: reason.clone() },
            TerminalState::Updating => TerminalState::Updating,
        }
    }
}

/// The name of a state's variant.
pub open spec fn state_name(state: TerminalState) -> &'static str {
    match state {
        TerminalState::Booting => "Booting",
        TerminalState::Provisioning => "Provisioning",
        TerminalState::Connecting => "Connecting",
        TerminalState::Idle => "Idle",
        TerminalState::EnteringAmount { .. } => "EnteringAmount",
        TerminalState::CreatingInvoice { .. } => "CreatingInvoice",
        TerminalState::AwaitingPayment { .. } => "AwaitingPayment",
        TerminalState::PaymentReceived { .. } => "PaymentReceived",
        TerminalState::Expired { .. } => "Expired",
        TerminalState::NetworkUnavailable { .. } => "NetworkUnavailable",
        TerminalState::Error { .. } => "Error",
        TerminalState::Updating => "Updating",
    }
}

impl TerminalState {
    pub fn name(&self) -> (name: &'static str)
        ensures
            name == state_name(*self),
    {
        match self {
            TerminalState::Booting => "Booting",
            TerminalState::Provisioning => "Provisioning",
            TerminalState::Connecting => "Connecting",
            TerminalState::Idle => "Idle",
            TerminalState::EnteringAmount { .. } => "EnteringAmount",
            TerminalState::CreatingInvoice { .. } => "CreatingInvoice",
            TerminalState::AwaitingPayment { .. } => "AwaitingPayment",
            TerminalState::PaymentReceived { .. } => "PaymentReceived",
            TerminalState::Expired { .. } => "Expired",
            TerminalState::NetworkUnavailable { .. } => "NetworkUnavailable",
            TerminalState::Error { .. } => "Error",
            TerminalState::Updating => "Updating",
        }
    }
}

/// What happened to the terminal: user input, network and payment news.
#[derive(Debug, Clone, PartialEq, Eq)]
pub enum AppEvent {
    BootCompleted { provisioned: bool },
    ProvisioningCompleted,
    WifiConnected,
    WifiDisconnected,
    EnterAmountRequested,
    AmountChanged(Sats),
    AmountConfirmed(Sats),
    InvoiceCreated(Invoice),
    InvoiceCreationFailed { reason: String },
    PaymentReceived(Payment),
    InvoiceExpired(InvoiceId),
    RetryRequested,
    CancelRequested,
    UpdateStarted,
    UpdateFinished,
    ErrorOccurred { reason: String },
}

/// The name of an event's variant.
pub open spec fn event_name(event: AppEvent) -> &'static str {
    match event {
        AppEvent::BootCompleted { .. } => "BootCompleted",
        AppEvent::ProvisioningCompleted => "ProvisioningCompleted",
        AppEvent::WifiConnected => "WifiConnected",
        AppEvent::WifiDisconnected => "WifiDisconnected",
        AppEvent::EnterAmountRequested => "EnterAmountRequested",
        AppEvent::AmountChanged(_) => "AmountChanged",
        AppEvent::AmountConfirmed(_) => "AmountConfirmed",
        AppEvent::InvoiceCreated(_) => "InvoiceCreated",
        AppEvent::InvoiceCreationFailed { .. } => "InvoiceCreationFailed",
        AppEvent::PaymentReceived(_) => "PaymentReceived",
        AppEvent::InvoiceExpired(_) => "InvoiceExpired",
        AppEvent::RetryRequested => "RetryRequested",
        AppEvent::CancelRequested => "CancelRequested",
        AppEvent::UpdateStarted => "UpdateStarted",
        AppEvent::UpdateFinished => "UpdateFinished",
        AppEvent::ErrorOccurred { .. } => "ErrorOccurred",
    }
}

impl AppEvent {
    pub fn name(&self) -> (name: &'static str)
        ensures
            name == event_name(*self),
    {
        match self {
            AppEvent::BootCompleted { .. } => "BootCompleted",
            AppEvent::ProvisioningCompleted => "ProvisioningCompleted",
            AppEvent::WifiConnected => "WifiConnected",
            AppEvent::WifiDisconnected => "WifiDisconnected",
            AppEvent::EnterAmountRequested => "EnterAmountRequested",
            AppEvent::AmountChanged(_) => "AmountChanged",
            AppEvent::AmountConfirmed(_) => "AmountConfirmed",
            AppEvent::InvoiceCreated(_) => "InvoiceCreated",
            AppEvent::InvoiceCreationFailed { .. } => "InvoiceCreationFailed",
            AppEvent::PaymentReceived(_) => "PaymentReceived",
            AppEvent::InvoiceExpired(_) => "InvoiceExpired",
            AppEvent::RetryRequested => "RetryRequested",
            AppEvent::CancelRequested => "CancelRequested",
            AppEvent::UpdateStarted => "UpdateStarted",
            AppEvent::UpdateFinished => "UpdateFinished",
            AppEvent::ErrorOccurred { .. } => "ErrorOccurred",
        }
    }
}

/// Why the state machine refused an event.
#[derive(Debug, Clone, Copy, PartialEq, Eq)]
pub enum StateMachineError {
    InvalidTransition { state: &'static str, event: &'static str },
    InvoiceMismatch,
    PaymentNotConfirmed,
}

/// The human readable text of a state machine error.
pub open spec fn state_machine_message(e: StateMachineError) -> Seq<char> {
    match e {
        StateMachineError::InvalidTransition { state, event } => "invalid transition from "@ + state@
            + " with event "@ + event@,
        StateMachineError::InvoiceMismatch => "payment event does not match the active invoice"@,
        StateMachineError::PaymentNotConfirmed => "payment event is not a paid confirmation"@,
    }
}

impl StateMachineError {
    /// The error's message, as users see it.
    pub fn to_string(&self) -> (text: String)
        ensures
            text@ == state_machine_message(*self),
    {
        match self {
            StateMachineError::InvalidTransition { state, event } => {
                String::from_str("invalid transition from ").concat(state).concat(
                    " with event ",
                ).concat(event)
            },
            StateMachineError::InvoiceMismatch => String::from_str(
                "payment event does not match the active invoice",
            ),
            StateMachineError::PaymentNotConfirmed => String::from_str(
                "payment event is not a paid confirmation",
            ),
        }
    }
}

/// The invoice that the terminal is collecting payment for in `state`, if any.
pub open spec fn active_invoice_of(state: TerminalState) -> Option<Invoice> {
    match state {
        TerminalState::AwaitingPayment { invoice } => Some(invoice),
        TerminalState::NetworkUnavailable { invoice: Some(invoice) } => Some(invoice),
        _ => None,
    }
}

/// The refusal of `event` in `state` as an invalid transition.
pub open spec fn invalid_transition(state: TerminalState, event: AppEvent) -> Result<
    TerminalState,
    StateMachineError,
> {
    Err(StateMachineError::InvalidTransition { state: state_name(state), event: event_name(event) })
}

/// The transition table: the state that `event` leads to from `state` while
/// `current` is the active invoice, or why the event is refused.
pub open spec fn next_state_of(state: TerminalState, current: Option<Invoice>, event: AppEvent) -> Result<
    TerminalState,
    StateMachineError,
> {
    match event {
        AppEvent::BootCompleted { provisioned } => match state {
            TerminalState::Booting => if provisioned {
                Ok(TerminalState::Connecting)
            } else {
                Ok(TerminalState::Provisioning)
            },
            _ => invalid_transition(state, event),
        },
        AppEvent::ProvisioningCompleted => match state {
            TerminalState::Provisioning => Ok(TerminalState::Connecting),
            _ => invalid_transition(state, event),
        },
        AppEvent::WifiConnected => match state {
            TerminalState::Connecting => Ok(TerminalState::Idle),
            TerminalState::NetworkUnavailable { invoice: None } => Ok(TerminalState::Idle),
            TerminalState::NetworkUnavailable { invoice: Some(invoice) } => Ok(
                TerminalState::AwaitingPayment { invoice },
            ),
            _ => invalid_transition(state, event),
        },
        AppEvent::WifiDisconnected => Ok(TerminalState::NetworkUnavailable { invoice: current }),
        AppEvent::EnterAmountRequested => match state {
            TerminalState::Idle => Ok(TerminalState::EnteringAmount { amount: None }),
            _ => invalid_transition(state, event),
        },
        AppEvent::AmountChanged(amount) => match state {
            TerminalState::EnteringAmount { .. } => Ok(
                TerminalState::EnteringAmount { amount: Some(amount) },
            ),
            _ => invalid_transition(state, event),
        },
        AppEvent::AmountConfirmed(amount) => match state {
            TerminalState::Idle | TerminalState::EnteringAmount { .. } => Ok(
                TerminalState::CreatingInvoice { amount },
            ),
            _ => invalid_transition(state, event),
        },
        AppEvent::InvoiceCreated(invoice) => match state {
            TerminalState::CreatingInvoice { amount } => if invoice.amount == amount {
                Ok(TerminalState::AwaitingPayment { invoice })
            } else {
                Err(StateMachineError::InvoiceMismatch)
            },
            _ => invalid_transition(state, event),
        },
        AppEvent::InvoiceCreationFailed { reason } => match state {
            TerminalState::CreatingInvoice { .. } => Ok(TerminalState::Error { reason }),
            _ => invalid_transition(state, event),
        },
        AppEvent::PaymentReceived(payment) => match state {
            TerminalState::AwaitingPayment { invoice } => if payment.invoice_id@ != invoice.id@ {
                Err(StateMachineError::InvoiceMismatch)
            } else if payment.status != PaymentStatus::Paid {
                Err(StateMachineError::PaymentNotConfirmed)
            } else {
                Ok(TerminalState::PaymentReceived { payment })
            },
            TerminalState::PaymentReceived { payment: received } => if payment.invoice_id@
                == received.invoice_id@ {
                Ok(state)
            } else {
                invalid_transition(state, event)
            },
            _ => invalid_transition(state, event),
        },
        AppEvent::InvoiceExpired(invoice_id) => match state {
            TerminalState::AwaitingPayment { invoice } => if invoice_id@ == invoice.id@ {
                Ok(TerminalState::Expired { invoice_id })
            } else {
                Err(StateMachineError::InvoiceMismatch)
            },
            _ => invalid_transition(state, event),
        },
        AppEvent::RetryRequested => match state {
            TerminalState::Expired { .. }
            | TerminalState::PaymentReceived { .. }
            | TerminalState::Error { .. } => Ok(TerminalState::Idle),
            _ => invalid_transition(state, event),
        },
        AppEvent::CancelRequested => match state {
            TerminalState::Idle
            | TerminalState::EnteringAmount { .. }
            | TerminalState::CreatingInvoice { .. }
            | TerminalState::AwaitingPayment { .. }
            | TerminalState::Expired { .. }
            | TerminalState::PaymentReceived { .. }
            | TerminalState::Error { .. } => Ok(TerminalState::Idle),
            _ => invalid_transition(state, event),
        },
        AppEvent::UpdateStarted => Ok(TerminalState::Updating),
        AppEvent::UpdateFinished => match state {
            TerminalState::Updating => Ok(TerminalState::Connecting),
            _ => invalid_transition(state, event),
        },
        AppEvent::ErrorOccurred { reason } => Ok(TerminalState::Error { reason }),
    }
}

/// What holds of every state the terminal can be in: the remembered invoice
/// is the one the state is about, and a received payment is a paid one.
pub open spec fn consistent(state: TerminalState, current: Option<Invoice>) -> bool {
    &&& current == active_invoice_of(state)
    &&& state matches TerminalState::PaymentReceived { payment } ==> payment.status
        == PaymentStatus::Paid
}

fn clone_invoice_option(invoice: &Option<Invoice>) -> (copy: Option<Invoice>)
    ensures
        copy == *invoice,
{
    match invoice {
        Some(invoice) => Some(invoice.clone()),
        None => None,
    }
}

/// The invoice that the terminal is collecting payment for in `state`, if any.
pub fn active_invoice(state: &TerminalState) -> (invoice: Option<Invoice>)
    ensures
        invoice == active_invoice_of(*state),
{
    match state {
        TerminalState::AwaitingPayment { invoice } => Some(invoice.clone()),
        TerminalState::NetworkUnavailable { invoice: Some(invoice) } => Some(invoice.clone()),
        _ => None,
    }
}

/// The terminal: its state and the invoice it is collecting payment for.
#[derive(Debug, PartialEq, Eq)]
pub struct Terminal {
    state: TerminalState,
    current_invoice: Option<Invoice>,
}

impl Clone for Terminal {
    fn clone(&self) -> (copy: Self)
        ensures
            copy == *self,
    {
        proof {
            use_type_invariant(self);
        }
        Terminal { state: self.state.clone(), current_invoice: clone_invoice_option(&self.current_invoice) }
    }
}

impl Default for Terminal {
    fn default() -> (terminal: Self)
        ensures
            terminal.state_of() == TerminalState::Booting,
            terminal.invoice_of() == None::<Invoice>,
    {
        Terminal::new()
    }
}

impl Terminal {
    #[verifier::type_invariant]
    spec fn well_formed(self) -> bool {
        consistent(self.state, self.current_invoice)
    }

    /// The terminal's state.
    pub closed spec fn state_of(self) -> TerminalState {
        self.state
    }

    /// The invoice the terminal is collecting payment for.
    pub closed spec fn invoice_of(self) -> Option<Invoice> {
        self.current_invoice
    }

    /// A terminal that is booting.
    pub fn new() -> (terminal: Self)
        ensures
            terminal.state_of() == TerminalState::Booting,
            terminal.invoice_of() == None::<Invoice>,
    {
        Terminal { state: TerminalState::Booting, current_invoice: None }
    }

    pub fn state(&self) -> (state: &TerminalState)
        ensures
            *state == self.state_of(),
            consistent(self.state_of(), self.invoice_of()),
    {
        proof {
            use_type_invariant(self);
        }
        &self.state
    }

    pub fn current_invoice(&self) -> (invoice: Option<&Invoice>)
        ensures
            match invoice {
                Some(invoice) => self.invoice_of() == Some(*invoice),
                None => self.invoice_of() is None,
            },
            self.invoice_of() == active_invoice_of(self.state_of()),
    {
        proof {
            use_type_invariant(self);
        }
        self.current_invoice.as_ref()
    }

    /// Feeds `event` to the state machine. On success the terminal moves to the
    /// new state and the new state is returned; on refusal nothing changes.
    pub fn apply(&mut self, event: AppEvent) -> (res: Result<&TerminalState, StateMachineError>)
        ensures
            match next_state_of(old(self).state_of(), old(self).invoice_of(), event) {
                Ok(next) => {
                    &&& res matches Ok(state) && *state == next
                    &&& final(self).state_of() == next
                    &&& final(self).invoice_of() == active_invoice_of(next)
                },
                Err(e) => res == Err::<&TerminalState, StateMachineError>(e) && *final(self)
                    == *old(self),
            },
    {
        proof {
            use_type_invariant(&*self);
            law_transition_preserves_consistency(self.state, self.current_invoice, event);
        }
        let next = self.next_state(event)?;
        let current = active_invoice(&next);
        *self = Terminal { state: next, current_invoice: current };
        Ok(&self.state)
    }

    fn next_state(&self, event: AppEvent) -> (res: Result<TerminalState, StateMachineError>)
        ensures
            res == next_state_of(self.state, self.current_invoice, event),
    {
        let state_label = self.state.name();
        let event_label = event.name();
        let invalid = StateMachineError::InvalidTransition { state: state_label, event: event_label };
        match event {
            AppEvent::BootCompleted { provisioned } => match &self.state {
                TerminalState::Booting => if provisioned {
                    Ok(TerminalState::Connecting)
                } else {
                    Ok(TerminalState::Provisioning)
                },
                _ => Err(invalid),
            },
            AppEvent::ProvisioningCompleted => match &self.state {
                TerminalState::Provisioning => Ok(TerminalState::Connecting),
                _ => Err(invalid),
            },
            AppEvent::WifiConnected => match &self.state {
                TerminalState::Connecting => Ok(TerminalState::Idle),
                TerminalState::NetworkUnavailable { invoice: None } => Ok(TerminalState::Idle),
                TerminalState::NetworkUnavailable { invoice: Some(invoice) } => Ok(
                    TerminalState::AwaitingPayment { invoice: invoice.clone() },
                ),
                _ => Err(invalid),
            },
            AppEvent::WifiDisconnected => Ok(
                TerminalState::NetworkUnavailable {
                    invoice: clone_invoice_option(&self.current_invoice),
                },
            ),
            AppEvent::EnterAmountRequested => match &self.state {
                TerminalState::Idle => Ok(TerminalState::EnteringAmount { amount: None }),
                _ => Err(invalid),
            },
            AppEvent::AmountChanged(amount) => match &self.state {
                TerminalState::EnteringAmount { .. } => Ok(
                    TerminalState::EnteringAmount { amount: Some(amount) },
                ),
                _ => Err(invalid),
            },
            AppEvent::AmountConfirmed(amount) => match &self.state {
                TerminalState::Idle | TerminalState::EnteringAmount { .. } => Ok(
                    TerminalState::CreatingInvoice { amount },
                ),
                _ => Err(invalid),
            },
            AppEvent::InvoiceCreated(invoice) => match &self.state {
                TerminalState::CreatingInvoice { amount } => if invoice.amount == *amount {
                    Ok(TerminalState::AwaitingPayment { invoice })
                } else {
                    Err(StateMachineError::InvoiceMismatch)
                },
                _ => Err(invalid),
            },
            AppEvent::InvoiceCreationFailed { reason } => match &self.state {
                TerminalState::CreatingInvoice { .. } => Ok(TerminalState::Error { reason }),
                _ => Err(invalid),
            },
            AppEvent::PaymentReceived(payment) => match &self.state {
                TerminalState::AwaitingPayment { invoice } => {
                    if !payment.invoice_id.same_as(&invoice.id) {
                        return Err(StateMachineError::InvoiceMismatch);
                    }
                    if payment.status != PaymentStatus::Paid {
                        return Err(StateMachineError::PaymentNotConfirmed);
                    }
                    Ok(TerminalState::PaymentReceived { payment })
                },
                TerminalState::PaymentReceived { payment: received } => {
                    if payment.invoice_id.same_as(&received.invoice_id) {
                        Ok(TerminalState::PaymentReceived { payment: received.clone() })
                    } else {
                        Err(invalid)
                    }
                },
                _ => Err(invalid),
            },
            AppEvent::InvoiceExpired(invoice_id) => match &self.state {
                TerminalState::AwaitingPayment { invoice } => if invoice_id.same_as(&invoice.id) {
                    Ok(TerminalState::Expired { invoice_id })
                } else {
                    Err(StateMachineError::InvoiceMismatch)
                },
                _ => Err(invalid),
            },
            AppEvent::RetryRequested => match &self.state {
                TerminalState::Expired { .. }
                | TerminalState::PaymentReceived { .. }
                | TerminalState::Error { .. } => Ok(TerminalState::Idle),
                _ => Err(invalid),
            },
            AppEvent::CancelRequested => match &self.state {
                TerminalState::Idle
                | TerminalState::EnteringAmount { .. }
                | TerminalState::CreatingInvoice { .. }
                | TerminalState::AwaitingPayment { .. }
                | TerminalState::Expired { .. }
                | TerminalState::PaymentReceived { .. }
                | TerminalState::Error { .. } => Ok(TerminalState::Idle),
                _ => Err(invalid),
            },
            AppEvent::UpdateStarted => Ok(TerminalState::Updating),
            AppEvent::UpdateFinished => match &self.state {
                TerminalState::Updating => Ok(TerminalState::Connecting),
                _ => Err(invalid),
            },
            AppEvent::ErrorOccurred { reason } => Ok(TerminalState::Error { reason }),
        }
    }
}

/// Two terminals are equal exactly when they are in the same state and
/// collect payment for the same invoice; so `Terminal::default()` and
/// `Terminal::new()` give the same terminal.
pub proof fn lemma_terminal_equal_by_state(a: Terminal, b: Terminal)
    ensures
        (a == b) <==> (a.state_of() == b.state_of() && a.invoice_of() == b.invoice_of()),
{
}

/// Every accepted event leads from a consistent terminal to a consistent one,
/// once the terminal remembers the new state's active invoice; a new terminal
/// is consistent, so every terminal is.
pub proof fn law_transition_preserves_consistency(
    state: TerminalState,
    current: Option<Invoice>,
    event: AppEvent,
)
    requires
        consistent(state, current),
    ensures
        consistent(TerminalState::Booting, None),
        next_state_of(state, current, event) matches Ok(next) ==> consistent(
            next,
            active_invoice_of(next),
        ),
{
}

/// Losing Wi-Fi is accepted in every state and keeps the active invoice: the
/// invoice awaited, or the one kept while offline, and none otherwise.
pub proof fn law_disconnect_keeps_active_invoice(state: TerminalState, current: Option<Invoice>)
    ensures
        next_state_of(state, current, AppEvent::WifiDisconnected) == Ok::<
            TerminalState,
            StateMachineError,
        >(TerminalState::NetworkUnavailable { invoice: current }),
        consistent(state, current) ==> next_state_of(state, current, AppEvent::WifiDisconnected)
            == Ok::<TerminalState, StateMachineError>(
            TerminalState::NetworkUnavailable { invoice: active_invoice_of(state) },
        ),
{
}

/// Booting leads to connecting on a provisioned device and to provisioning on
/// a new one; finished provisioning and a finished update lead to connecting;
/// Wi-Fi while connecting, or while offline with no invoice, leads to idle.
pub proof fn law_startup_transitions(current: Option<Invoice>, provisioned: bool)
    ensures
        next_state_of(TerminalState::Booting, current, AppEvent::BootCompleted { provisioned })
            == Ok::<TerminalState, StateMachineError>(
            if provisioned {
                TerminalState::Connecting
            } else {
                TerminalState::Provisioning
            },
        ),
        next_state_of(TerminalState::Provisioning, current, AppEvent::ProvisioningCompleted)
            == Ok::<TerminalState, StateMachineError>(TerminalState::Connecting),
        next_state_of(TerminalState::Updating, current, AppEvent::UpdateFinished) == Ok::<
            TerminalState,
            StateMachineError,
        >(TerminalState::Connecting),
        next_state_of(TerminalState::Connecting, current, AppEvent::WifiConnected) == Ok::<
            TerminalState,
            StateMachineError,
        >(TerminalState::Idle),
        next_state_of(
            TerminalState::NetworkUnavailable { invoice: None },
            current,
            AppEvent::WifiConnected,
        ) == Ok::<TerminalState, StateMachineError>(TerminalState::Idle),
{
}

/// Starting a sale: idle opens amount entry with nothing entered, each change
/// of the amount replaces the entered one, and confirming an amount while idle
/// or entering starts creating an invoice for exactly that amount.
pub proof fn law_amount_entry_transitions(
    current: Option<Invoice>,
    entered: Option<Sats>,
    amount: Sats,
)
    ensures
        next_state_of(TerminalState::Idle, current, AppEvent::EnterAmountRequested) == Ok::<
            TerminalState,
            StateMachineError,
        >(TerminalState::EnteringAmount { amount: None }),
        next_state_of(
            TerminalState::EnteringAmount { amount: entered },
            current,
            AppEvent::AmountChanged(amount),
        ) == Ok::<TerminalState, StateMachineError>(
            TerminalState::EnteringAmount { amount: Some(amount) },
        ),
        next_state_of(TerminalState::Idle, current, AppEvent::AmountConfirmed(amount)) == Ok::<
            TerminalState,
            StateMachineError,
        >(TerminalState::CreatingInvoice { amount }),
        next_state_of(
            TerminalState::EnteringAmount { amount: entered },
            current,
            AppEvent::AmountConfirmed(amount),
        ) == Ok::<TerminalState, StateMachineError>(TerminalState::CreatingInvoice { amount }),
{
}

/// A terminal waiting for payment that loses and regains Wi-Fi waits for
/// payment of the same invoice again.
pub proof fn law_reconnect_resumes_payment(invoice: Invoice)
    ensures
        ({
            let waiting = TerminalState::AwaitingPayment { invoice };
            let offline = TerminalState::NetworkUnavailable { invoice: Some(invoice) };
            &&& next_state_of(waiting, active_invoice_of(waiting), AppEvent::WifiDisconnected)
                == Ok::<TerminalState, StateMachineError>(offline)
            &&& next_state_of(offline, active_invoice_of(offline), AppEvent::WifiConnected)
                == Ok::<TerminalState, StateMachineError>(waiting)
        }),
{
}

/// A repeated payment event for the invoice already paid leaves the state as
/// it is, keeping the payment first received; a payment event for another
/// invoice is refused as an invalid transition.
pub proof fn law_duplicate_payment_is_idempotent(
    received: Payment,
    repeated: Payment,
    current: Option<Invoice>,
)
    ensures
        next_state_of(
            TerminalState::PaymentReceived { payment: received },
            current,
            AppEvent::PaymentReceived(repeated),
        ) == (if repeated.invoice_id@ == received.invoice_id@ {
            Ok::<TerminalState, StateMachineError>(
                TerminalState::PaymentReceived { payment: received },
            )
        } else {
            Err::<TerminalState, StateMachineError>(
                StateMachineError::InvalidTransition {
                    state: "PaymentReceived",
                    event: "PaymentReceived",
                },
            )
        }),
{
}

/// A payment is only accepted for the awaited invoice and only when it is paid;
/// otherwise it is refused with the matching error.
pub proof fn law_payment_must_match_awaited_invoice(
    invoice: Invoice,
    payment: Payment,
    current: Option<Invoice>,
)
    ensures
        ({
            let outcome = next_state_of(
                TerminalState::AwaitingPayment { invoice },
                current,
                AppEvent::PaymentReceived(payment),
            );
            &&& payment.invoice_id@ != invoice.id@ ==> outcome == Err::<
                TerminalState,
                StateMachineError,
            >(StateMachineError::InvoiceMismatch)
            &&& payment.invoice_id@ == invoice.id@ && payment.status != PaymentStatus::Paid
                ==> outcome == Err::<TerminalState, StateMachineError>(
                StateMachineError::PaymentNotConfirmed,
            )
            &&& payment.invoice_id@ == invoice.id@ && payment.status == PaymentStatus::Paid
                ==> outcome == Ok::<TerminalState, StateMachineError>(
                TerminalState::PaymentReceived { payment },
            )
        }),
{
}

/// The terminal only waits for payment of an invoice for the amount it asked for.
pub proof fn law_created_invoice_must_match_amount(
    amount: Sats,
    invoice: Invoice,
    current: Option<Invoice>,
)
    ensures
        next_state_of(
            TerminalState::CreatingInvoice { amount },
            current,
            AppEvent::InvoiceCreated(invoice),
        ) == (if invoice.amount == amount {
            Ok::<TerminalState, StateMachineError>(TerminalState::AwaitingPayment { invoice })
        } else {
            Err::<TerminalState, StateMachineError>(StateMachineError::InvoiceMismatch)
        }),
{
}

/// A firmware update and a reported error are accepted in every state.
pub proof fn law_update_and_error_always_accepted(
    state: TerminalState,
    current: Option<Invoice>,
    reason: String,
)
    ensures
        next_state_of(state, current, AppEvent::UpdateStarted) == Ok::<
            TerminalState,
            StateMachineError,
        >(TerminalState::Updating),
        next_state_of(state, current, AppEvent::ErrorOccurred { reason }) == Ok::<
            TerminalState,
            StateMachineError,
        >(TerminalState::Error { reason }),
{
}

/// Cancelling from any state of a sale brings the terminal back to idle.
pub proof fn law_cancel_returns_to_idle(state: TerminalState, current: Option<Invoice>)
    requires
        state is Idle || state is EnteringAmount || state is CreatingInvoice
            || state is AwaitingPayment || state is Expired || state is PaymentReceived
            || state is Error,
    ensures
        next_state_of(state, current, AppEvent::CancelRequested) == Ok::<
            TerminalState,
            StateMachineError,
        >(TerminalState::Idle),
{
}

/// Retrying is accepted exactly once a sale is over: after the invoice
/// expired, after the payment was received, or after an error; it leads back
/// to idle whatever invoice is remembered. Elsewhere it is refused as an
/// invalid transition.
pub proof fn law_retry_returns_to_idle(state: TerminalState, current: Option<Invoice>)
    ensures
        state is Expired || state is PaymentReceived || state is Error ==> next_state_of(
            state,
            current,
            AppEvent::RetryRequested,
        ) == Ok::<TerminalState, StateMachineError>(TerminalState::Idle),
        !(state is Expired || state is PaymentReceived || state is Error) ==> next_state_of(
            state,
            current,
            AppEvent::RetryRequested,
        ) == Err::<TerminalState, StateMachineError>(
            StateMachineError::InvalidTransition {
                state: state_name(state),
                event: "RetryRequested",
            },
        ),
{
}

/// Cancelling is refused while the terminal is starting, connecting, offline
/// or updating.
pub proof fn law_cancel_refused_outside_sale(state: TerminalState, current: Option<Invoice>)
    requires
        state is Booting || state is Provisioning || state is Connecting
            || state is NetworkUnavailable || state is Updating,
    ensures
        next_state_of(state, current, AppEvent::CancelRequested) == Err::<
            TerminalState,
            StateMachineError,
        >(
            StateMachineError::InvalidTransition {
                state: state_name(state),
                event: "CancelRequested",
            },
        ),
{
}

/// The awaited invoice expiring moves the terminal to the expired state for
/// that invoice; an expiry of another invoice is a mismatch, and expiry in any
/// other state is refused.
pub proof fn law_invoice_expiry(state: TerminalState, current: Option<Invoice>, expired: InvoiceId)
    ensures
        state matches TerminalState::AwaitingPayment { invoice } ==> next_state_of(
            state,
            current,
            AppEvent::InvoiceExpired(expired),
        ) == (if expired@ == invoice.id@ {
            Ok::<TerminalState, StateMachineError>(TerminalState::Expired { invoice_id: expired })
        } else {
            Err::<TerminalState, StateMachineError>(StateMachineError::InvoiceMismatch)
        }),
        !(state is AwaitingPayment) ==> next_state_of(
            state,
            current,
            AppEvent::InvoiceExpired(expired),
        ) == Err::<TerminalState, StateMachineError>(
            StateMachineError::InvalidTransition {
                state: state_name(state),
                event: "InvoiceExpired",
            },
        ),
{
}

/// A failed invoice creation turns the terminal to the error state with the
/// reported reason; it is refused when no invoice is being created.
pub proof fn law_creation_failure_reports_reason(
    state: TerminalState,
    current: Option<Invoice>,
    reason: String,
)
    ensures
        state is CreatingInvoice ==> next_state_of(
            state,
            current,
            AppEvent::InvoiceCreationFailed { reason },
        ) == Ok::<TerminalState, StateMachineError>(TerminalState::Error { reason }),
        !(state is CreatingInvoice) ==> next_state_of(
            state,
            current,
            AppEvent::InvoiceCreationFailed { reason },
        ) == Err::<TerminalState, StateMachineError>(
            StateMachineError::InvalidTransition {
                state: state_name(state),
                event: "InvoiceCreationFailed",
            },
        ),
{
}

/// Each step of starting up and of a sale is accepted only in the state it
/// belongs to; out of place, it is refused as an invalid transition and the
/// refusal names the state and the event.
pub proof fn law_events_refused_out_of_place(
    state: TerminalState,
    current: Option<Invoice>,
    event: AppEvent,
)
    ensures
        ({
            let refused = next_state_of(state, current, event) == Err::<
                TerminalState,
                StateMachineError,
            >(
                StateMachineError::InvalidTransition {
                    state: state_name(state),
                    event: event_name(event),
                },
            );
            &&& event is BootCompleted && !(state is Booting) ==> refused
            &&& event is ProvisioningCompleted && !(state is Provisioning) ==> refused
            &&& event is UpdateFinished && !(state is Updating) ==> refused
            &&& event is WifiConnected && !(state is Connecting || state is NetworkUnavailable)
                ==> refused
            &&& event is EnterAmountRequested && !(state is Idle) ==> refused
            &&& event is AmountChanged && !(state is EnteringAmount) ==> refused
            &&& event is AmountConfirmed && !(state is Idle || state is EnteringAmount) ==> refused
            &&& event is InvoiceCreated && !(state is CreatingInvoice) ==> refused
            &&& event is PaymentReceived && !(state is AwaitingPayment || state is PaymentReceived)
                ==> refused
        }),
{
}

/// A refused transition names the state and the event it was refused for.
pub proof fn law_invalid_transition_names_state_and_event(
    state: TerminalState,
    current: Option<Invoice>,
    event: AppEvent,
)
    ensures
        next_state_of(state, current, event) matches Err(
            StateMachineError::InvalidTransition { state: named_state, event: named_event },
        ) ==> named_state == state_name(state) && named_event == event_name(event),
{
}

/// A booting terminal accepts only the end of booting and the events
/// accepted in every state.
pub proof fn law_booting_accepts_only_boot_completion(current: Option<Invoice>, event: AppEvent)
    requires
        !(event is BootCompleted || event is WifiDisconnected || event is UpdateStarted
            || event is ErrorOccurred),
    ensures
        next_state_of(TerminalState::Booting, current, event) == Err::<
            TerminalState,
            StateMachineError,
        >(StateMachineError::InvalidTransition { state: "Booting", event: event_name(event) }),
{
}

} // verus!
