//! How an order is paid.

use crate::models::catalog::Price;
use crate::tags::TagMap;
use vstd::prelude::*;

verus! {

/// How far a payment has come.
#[derive(Clone, Copy, Debug, PartialEq, Eq, Structural)]
pub enum PaymentStatus {
    /// The payment is due.
    Due,
    /// The payment is under way.
    Pending,
    /// The payment has been made.
    Paid,
    /// The payment has failed.
    Failed,
}

impl PaymentStatus {
    /// The name of the status on the wire.
    pub open spec fn spec_name(self) -> Seq<char> {
        match self {
            PaymentStatus::Due => "DUE"@,
            PaymentStatus::Pending => "PENDING"@,
            PaymentStatus::Paid => "PAID"@,
            PaymentStatus::Failed => "FAILED"@,
        }
    }

    /// The name of the status on the wire.
    pub fn as_str(&self) -> (name: &'static str)
        ensures
            name@ == self.spec_name(),
    {
        match self {
            PaymentStatus::Due => "DUE",
            PaymentStatus::Pending => "PENDING",
            PaymentStatus::Paid => "PAID",
            PaymentStatus::Failed => "FAILED",
        }
    }
}

/// When and how a payment is made.
#[derive(Clone, Copy, Debug, PartialEq, Eq, Structural)]
pub enum PaymentType {
    /// Paid on delivery.
    OnDelivery,
    /// Paid in advance, with the order.
    OnOrder,
    /// Paid on credit.
    Credit,
    /// Paid by bank transfer.
    BankTransfer,
}

impl PaymentType {
    /// The name of the type on the wire.
    pub open spec fn spec_name(self) -> Seq<char> {
        match self {
            PaymentType::OnDelivery => "ON-DELIVERY"@,
            PaymentType::OnOrder => "ON-ORDER"@,
            PaymentType::Credit => "CREDIT"@,
            PaymentType::BankTransfer => "BANK-TRANSFER"@,
        }
    }

    /// The name of the type on the wire.
    pub fn as_str(&self) -> (name: &'static str)
        ensures
            name@ == self.spec_name(),
    {
        match self {
            PaymentType::OnDelivery => "ON-DELIVERY",
            PaymentType::OnOrder => "ON-ORDER",
            PaymentType::Credit => "CREDIT",
            PaymentType::BankTransfer => "BANK-TRANSFER",
        }
    }
}

/// A payment for an order.
#[derive(Debug, Clone)]
pub struct Payment {
    /// Where the payment is processed.
    pub uri: String,
    /// The method by which the payment is processed.
    pub tl_method: Option<String>,
    /// Parameters of the payment.
    pub params: Option<TagMap>,
    /// The type of the payment.
    pub payment_type: String,
    /// The status of the payment.
    pub status: String,
    /// When the payment was created, in ISO format.
    pub time: Option<String>,
    /// The amount to pay.
    pub amount: Option<Price>,
    /// The currency of the payment.
    pub currency: Option<String>,
}

/// A payment and the gateway that processed it.
#[derive(Debug, Clone)]
pub struct PaymentDetails {
    /// Identifier of the payment.
    pub id: String,
    /// The payment.
    pub payment: Payment,
    /// The gateway that processed the payment.
    pub gateway: Option<String>,
    /// Details of the transaction.
    pub transaction_details: Option<TagMap>,
}

/// A payment card.
#[derive(Debug, Clone)]
pub struct Card {
    /// The masked number of the card.
    pub card_number: String,
    /// Name of the holder of the card.
    pub holder_name: String,
    /// When the card expires, as month and year.
    pub expiry: String,
}

/// A bank account.
#[derive(Debug, Clone)]
pub struct BankAccount {
    /// Name of the holder of the account.
    pub holder_name: String,
    /// The masked number of the account.
    pub account_number: String,
    /// The code of the branch.
    pub ifsc_code: String,
    /// Name of the bank.
    pub bank_name: Option<String>,
    /// Name of the branch.
    pub branch_name: Option<String>,
}

} // verus!
