//! What the terminal's display shows for each state.
use vstd::prelude::*;

use crate::models::{Invoice, Sats};
use crate::terminal::TerminalState;

verus! {

/// A screen of the terminal's user interface.
#[derive(Debug, Clone, PartialEq, Eq)]
pub enum Screen {
    Boot,
    Provisioning,
    Home,
    EnterAmount { amount: Option<Sats> },
    CreatingInvoice,
    Invoice { invoice: Invoice },
    PaymentReceived { amount: Sats },
    Expired,
    NetworkError,
    SystemError,
    Updating,
}

/// The screen shown in `state`.
pub open spec fn screen_for(state: TerminalState) -> Screen {
    match state {
        TerminalState::Booting => Screen::Boot,
        TerminalState::Provisioning => Screen::Provisioning,
        TerminalState::Connecting | TerminalState::Idle => Screen::Home,
        TerminalState::EnteringAmount { amount } => Screen::EnterAmount { amount },
        TerminalState::CreatingInvoice { .. } => Screen::CreatingInvoice,
        TerminalState::AwaitingPayment { invoice } => Screen::Invoice { invoice },
        TerminalState::PaymentReceived { payment } => Screen::PaymentReceived {
            amount: payment.amount,
        },
        TerminalState::Expired { .. } => Screen::Expired,
        TerminalState::NetworkUnavailable { .. } => Screen::NetworkError,
        TerminalState::Error { .. } => Screen::SystemError,
        TerminalState::Updating => Screen::Updating,
    }
}

/// The title line of `screen`.
pub open spec fn screen_title(screen: Screen) -> &'static str {
    match screen {
        Screen::Boot => "Bitcoin Lightning Terminal",
        Screen::Provisioning => "Provisioning",
        Screen::Home => "Ready",
        Screen::EnterAmount { .. } => "Amount",
        Screen::CreatingInvoice => "Creating invoice",
        Screen::Invoice { .. } => "Waiting for payment",
        Screen::PaymentReceived { .. } => "Payment received",
        Screen::Expired => "Invoice expired",
        Screen::NetworkError => "Network unavailable",
        Screen::SystemError => "System error",
        Screen::Updating => "Updating firmware",
    }
}

impl Screen {
    pub fn from_terminal_state(state: &TerminalState) -> (screen: Self)
        ensures
            screen == screen_for(*state),
    {
        match state {
            TerminalState::Booting => Screen::Boot,
            TerminalState::Provisioning => Screen::Provisioning,
            TerminalState::Connecting | TerminalState::Idle => Screen::Home,
            TerminalState::EnteringAmount { amount } => Screen::EnterAmount { amount: *amount },
            TerminalState::CreatingInvoice { .. } => Screen::CreatingInvoice,
            TerminalState::AwaitingPayment { invoice } => Screen::Invoice {
                invoice: invoice.clone(),
            },
            TerminalState::PaymentReceived { payment } => Screen::PaymentReceived {
                amount: payment.amount,
            },
            TerminalState::Expired { .. } => Screen::Expired,
            TerminalState::NetworkUnavailable { .. } => Screen::NetworkError,
            TerminalState::Error { .. } => Screen::SystemError,
            TerminalState::Updating => Screen::Updating,
        }
    }

    /// The title line drawn for this screen.
    pub fn title(&self) -> (title: &'static str)
        ensures
            title == screen_title(*self),
    {
        match self {
            Screen::Boot => "Bitcoin Lightning Terminal",
            Screen::Provisioning => "Provisioning",
            Screen::Home => "Ready",
            Screen::EnterAmount { .. } => "Amount",
            Screen::CreatingInvoice => "Creating invoice",
            Screen::Invoice { .. } => "Waiting for payment",
            Screen::PaymentReceived { .. } => "Payment received",
            Screen::Expired => "Invoice expired",
            Screen::NetworkError => "Network unavailable",
            Screen::SystemError => "System error",
            Screen::Updating => "Updating firmware",
        }
    }
}

/// Each state is shown on the screen of the same meaning, under its title:
/// starting up on the boot screen, provisioning on the provisioning screen,
/// connecting and idle on the home screen ("Ready"), amount entry with the
/// entered amount, invoice creation, the awaited invoice itself, a received
/// payment with its amount, an expired invoice on the expired screen
/// ("Invoice expired"), lost Wi-Fi on the network error screen, an error on
/// the system error screen, and an update on the update screen.
pub proof fn law_screen_matches_state(state: TerminalState)
    ensures
        state is Booting ==> screen_for(state) == Screen::Boot && screen_title(screen_for(state))
            == "Bitcoin Lightning Terminal",
        state is Provisioning ==> screen_for(state) == Screen::Provisioning && screen_title(
            screen_for(state),
        ) == "Provisioning",
        state is Connecting || state is Idle ==> screen_for(state) == Screen::Home && screen_title(
            screen_for(state),
        ) == "Ready",
        state matches TerminalState::EnteringAmount { amount } ==> screen_for(state)
            == (Screen::EnterAmount { amount }) && screen_title(screen_for(state)) == "Amount",
        state is CreatingInvoice ==> screen_for(state) == Screen::CreatingInvoice && screen_title(
            screen_for(state),
        ) == "Creating invoice",
        state matches TerminalState::AwaitingPayment { invoice } ==> screen_for(state)
            == (Screen::Invoice { invoice }) && screen_title(screen_for(state))
            == "Waiting for payment",
        state matches TerminalState::PaymentReceived { payment } ==> screen_for(state)
            == (Screen::PaymentReceived { amount: payment.amount }) && screen_title(
            screen_for(state),
        ) == "Payment received",
        state is Expired ==> screen_for(state) == Screen::Expired && screen_title(
            screen_for(state),
        ) == "Invoice expired",
        state is NetworkUnavailable ==> screen_for(state) == Screen::NetworkError && screen_title(
            screen_for(state),
        ) == "Network unavailable",
        state is Error ==> screen_for(state) == Screen::SystemError && screen_title(
            screen_for(state),
        ) == "System error",
        state is Updating ==> screen_for(state) == Screen::Updating && screen_title(
            screen_for(state),
        ) == "Updating firmware",
{
}

/// A display that can show the terminal's screens.
pub trait TerminalUi {
    type Error;

    fn render(&mut self, screen: &Screen) -> Result<(), Self::Error>;
}

} // verus!
