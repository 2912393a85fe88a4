use vstd::prelude::*;

use crate::client::{
    call, get_query, get_path, join, join_path, post_form, send_outcome, Client, Identifiable,
    Method, Readable, Request,
};
use crate::error::Error;
use crate::form::{
    decimal, fields_view, form_text, opt_decimal_i64, opt_text, opt_view_field, plain_view,
    push_opt_i64, push_opt_text, push_plain, push_u64, str_eq, FieldView, FormField,
};
use crate::json::{
    bool_member, i64_member, json_bool_at, json_i64_at, json_text_at, json_u64_at, member,
    text_member, u64_member,
};
use crate::list::{List, ListParams};
use crate::params::{
    metadata_decodable, metadata_json, metadata_member, opt_metadata_view, opt_range_view,
    push_opt_metadata, push_opt_range, Metadata, RangeQuery, Timestamp,
};

verus! {

/// Why a payout failed; `Other` stands for any value that this library does not know.
#[derive(Clone, Copy, Debug, PartialEq, Eq, Structural)]
pub enum PayoutFailureCode {
    AccountClosed,
    AccountFrozen,
    BankAccountRestricted,
    BankOwnershipChanged,
    CouldNotProcess,
    DebitNotAuthorized,
    Declined,
    InsufficientFunds,
    InvalidAccountNumber,
    IncorrectAccountHolderName,
    InvalidCurrency,
    NoAccount,
    UnsupportedCard,
    Other,
}

impl PayoutFailureCode {
    /// The name that the API gives the value.
    pub open spec fn wire(self) -> Seq<char> {
        match self {
            PayoutFailureCode::AccountClosed => "account_closed"@,
            PayoutFailureCode::AccountFrozen => "account_frozen"@,
            PayoutFailureCode::BankAccountRestricted => "bank_account_restricted"@,
            PayoutFailureCode::BankOwnershipChanged => "bank_ownership_changed"@,
            PayoutFailureCode::CouldNotProcess => "could_not_process"@,
            PayoutFailureCode::DebitNotAuthorized => "debit_not_authorized"@,
            PayoutFailureCode::Declined => "declined"@,
            PayoutFailureCode::InsufficientFunds => "insufficient_funds"@,
            PayoutFailureCode::InvalidAccountNumber => "invalid_account_number"@,
            PayoutFailureCode::IncorrectAccountHolderName => "incorrect_account_holder_name"@,
            PayoutFailureCode::InvalidCurrency => "invalid_currency"@,
            PayoutFailureCode::NoAccount => "no_account"@,
            PayoutFailureCode::UnsupportedCard => "unsupported_card"@,
            PayoutFailureCode::Other => "other"@,
        }
    }

    /// The value that the API means by `s`: the one of that name, else `Other`.
    pub open spec fn from_wire_spec(s: Seq<char>) -> Self {
        if s == "account_closed"@ {
            PayoutFailureCode::AccountClosed
        } else if s == "account_frozen"@ {
            PayoutFailureCode::AccountFrozen
        } else if s == "bank_account_restricted"@ {
            PayoutFailureCode::BankAccountRestricted
        } else if s == "bank_ownership_changed"@ {
            PayoutFailureCode::BankOwnershipChanged
        } else if s == "could_not_process"@ {
            PayoutFailureCode::CouldNotProcess
        } else if s == "debit_not_authorized"@ {
            PayoutFailureCode::DebitNotAuthorized
        } else if s == "declined"@ {
            PayoutFailureCode::Declined
        } else if s == "insufficient_funds"@ {
            PayoutFailureCode::InsufficientFunds
        } else if s == "invalid_account_number"@ {
            PayoutFailureCode::InvalidAccountNumber
        } else if s == "incorrect_account_holder_name"@ {
            PayoutFailureCode::IncorrectAccountHolderName
        } else if s == "invalid_currency"@ {
            PayoutFailureCode::InvalidCurrency
        } else if s == "no_account"@ {
            PayoutFailureCode::NoAccount
        } else if s == "unsupported_card"@ {
            PayoutFailureCode::UnsupportedCard
        } else {
            PayoutFailureCode::Other
        }
    }

    /// Reads a value as the API writes it; a name not known here gives `Other`.
    pub fn from_wire(s: &str) -> (r: Self)
        ensures
            r == Self::from_wire_spec(s@),
    {
        if str_eq(s, "account_closed") {
            PayoutFailureCode::AccountClosed
        } else if str_eq(s, "account_frozen") {
            PayoutFailureCode::AccountFrozen
        } else if str_eq(s, "bank_account_restricted") {
            PayoutFailureCode::BankAccountRestricted
        } else if str_eq(s, "bank_ownership_changed") {
            PayoutFailureCode::BankOwnershipChanged
        } else if str_eq(s, "could_not_process") {
            PayoutFailureCode::CouldNotProcess
        } else if str_eq(s, "debit_not_authorized") {
            PayoutFailureCode::DebitNotAuthorized
        } else if str_eq(s, "declined") {
            PayoutFailureCode::Declined
        } else if str_eq(s, "insufficient_funds") {
            PayoutFailureCode::InsufficientFunds
        } else if str_eq(s, "invalid_account_number") {
            PayoutFailureCode::InvalidAccountNumber
        } else if str_eq(s, "incorrect_account_holder_name") {
            PayoutFailureCode::IncorrectAccountHolderName
        } else if str_eq(s, "invalid_currency") {
            PayoutFailureCode::InvalidCurrency
        } else if str_eq(s, "no_account") {
            PayoutFailureCode::NoAccount
        } else if str_eq(s, "unsupported_card") {
            PayoutFailureCode::UnsupportedCard
        } else {
            PayoutFailureCode::Other
        }
    }

    /// The name that the API gives the value.
    pub fn as_str(&self) -> (r: &'static str)
        ensures
            r@ == self.wire(),
    {
        match self {
            PayoutFailureCode::AccountClosed => "account_closed",
            PayoutFailureCode::AccountFrozen => "account_frozen",
            PayoutFailureCode::BankAccountRestricted => "bank_account_restricted",
            PayoutFailureCode::BankOwnershipChanged => "bank_ownership_changed",
            PayoutFailureCode::CouldNotProcess => "could_not_process",
            PayoutFailureCode::DebitNotAuthorized => "debit_not_authorized",
            PayoutFailureCode::Declined => "declined",
            PayoutFailureCode::InsufficientFunds => "insufficient_funds",
            PayoutFailureCode::InvalidAccountNumber => "invalid_account_number",
            PayoutFailureCode::IncorrectAccountHolderName => "incorrect_account_holder_name",
            PayoutFailureCode::InvalidCurrency => "invalid_currency",
            PayoutFailureCode::NoAccount => "no_account",
            PayoutFailureCode::UnsupportedCard => "unsupported_card",
            PayoutFailureCode::Other => "other",
        }
    }
}

/// How fast a payout is sent; `Other` stands for any value that this library does not know.
#[derive(Clone, Copy, Debug, PartialEq, Eq, Structural)]
pub enum PayoutMethod {
    Standard,
    Instant,
    Other,
}

impl PayoutMethod {
    /// The name that the API gives the value.
    pub open spec fn wire(self) -> Seq<char> {
        match self {
            PayoutMethod::Standard => "standard"@,
            PayoutMethod::Instant => "instant"@,
            PayoutMethod::Other => "other"@,
        }
    }

    /// The value that the API means by `s`: the one of that name, else `Other`.
    pub open spec fn from_wire_spec(s: Seq<char>) -> Self {
        if s == "standard"@ {
            PayoutMethod::Standard
        } else if s == "instant"@ {
            PayoutMethod::Instant
        } else {
            PayoutMethod::Other
        }
    }

    /// Reads a value as the API writes it; a name not known here gives `Other`.
    pub fn from_wire(s: &str) -> (r: Self)
        ensures
            r == Self::from_wire_spec(s@),
    {
        if str_eq(s, "standard") {
            PayoutMethod::Standard
        } else if str_eq(s, "instant") {
            PayoutMethod::Instant
        } else {
            PayoutMethod::Other
        }
    }

    /// The name that the API gives the value.
    pub fn as_str(&self) -> (r: &'static str)
        ensures
            r@ == self.wire(),
    {
        match self {
            PayoutMethod::Standard => "standard",
            PayoutMethod::Instant => "instant",
            PayoutMethod::Other => "other",
        }
    }
}

/// The kind of balance that a payout draws on; `Other` stands for any value that this library does not know.
#[derive(Clone, Copy, Debug, PartialEq, Eq, Structural)]
pub enum PayoutSourceType {
    Card,
    BankAccount,
    AlipayAccount,
    Other,
}

impl PayoutSourceType {
    /// The name that the API gives the value.
    pub open spec fn wire(self) -> Seq<char> {
        match self {
            PayoutSourceType::Card => "card"@,
            PayoutSourceType::BankAccount => "bank_account"@,
            PayoutSourceType::AlipayAccount => "alipay_account"@,
            PayoutSourceType::Other => "other"@,
        }
    }

    /// The value that the API means by `s`: the one of that name, else `Other`.
    pub open spec fn from_wire_spec(s: Seq<char>) -> Self {
        if s == "card"@ {
            PayoutSourceType::Card
        } else if s == "bank_account"@ {
            PayoutSourceType::BankAccount
        } else if s == "alipay_account"@ {
            PayoutSourceType::AlipayAccount
        } else {
            PayoutSourceType::Other
        }
    }

    /// Reads a value as the API writes it; a name not known here gives `Other`.
    pub fn from_wire(s: &str) -> (r: Self)
        ensures
            r == Self::from_wire_spec(s@),
    {
        if str_eq(s, "card") {
            PayoutSourceType::Card
        } else if str_eq(s, "bank_account") {
            PayoutSourceType::BankAccount
        } else if str_eq(s, "alipay_account") {
            PayoutSourceType::AlipayAccount
        } else {
            PayoutSourceType::Other
        }
    }

    /// The name that the API gives the value.
    pub fn as_str(&self) -> (r: &'static str)
        ensures
            r@ == self.wire(),
    {
        match self {
            PayoutSourceType::Card => "card",
            PayoutSourceType::BankAccount => "bank_account",
            PayoutSourceType::AlipayAccount => "alipay_account",
            PayoutSourceType::Other => "other",
        }
    }
}

/// The status of a payout; `Other` stands for any value that this library does not know.
#[derive(Clone, Copy, Debug, PartialEq, Eq, Structural)]
pub enum PayoutStatus {
    Paid,
    Pending,
    InTransit,
    Canceled,
    Failed,
    Other,
}

impl PayoutStatus {
    /// The name that the API gives the value.
    pub open spec fn wire(self) -> Seq<char> {
        match self {
            PayoutStatus::Paid => "paid"@,
            PayoutStatus::Pending => "pending"@,
            PayoutStatus::InTransit => "in_transit"@,
            PayoutStatus::Canceled => "canceled"@,
            PayoutStatus::Failed => "failed"@,
            PayoutStatus::Other => "other"@,
        }
    }

    /// The value that the API means by `s`: the one of that name, else `Other`.
    pub open spec fn from_wire_spec(s: Seq<char>) -> Self {
        if s == "paid"@ {
            PayoutStatus::Paid
        } else if s == "pending"@ {
            PayoutStatus::Pending
        } else if s == "in_transit"@ {
            PayoutStatus::InTransit
        } else if s == "canceled"@ {
            PayoutStatus::Canceled
        } else if s == "failed"@ {
            PayoutStatus::Failed
        } else {
            PayoutStatus::Other
        }
    }

    /// Reads a value as the API writes it; a name not known here gives `Other`.
    pub fn from_wire(s: &str) -> (r: Self)
        ensures
            r == Self::from_wire_spec(s@),
    {
        if str_eq(s, "paid") {
            PayoutStatus::Paid
        } else if str_eq(s, "pending") {
            PayoutStatus::Pending
        } else if str_eq(s, "in_transit") {
            PayoutStatus::InTransit
        } else if str_eq(s, "canceled") {
            PayoutStatus::Canceled
        } else if str_eq(s, "failed") {
            PayoutStatus::Failed
        } else {
            PayoutStatus::Other
        }
    }

    /// The name that the API gives the value.
    pub fn as_str(&self) -> (r: &'static str)
        ensures
            r@ == self.wire(),
    {
        match self {
            PayoutStatus::Paid => "paid",
            PayoutStatus::Pending => "pending",
            PayoutStatus::InTransit => "in_transit",
            PayoutStatus::Canceled => "canceled",
            PayoutStatus::Failed => "failed",
            PayoutStatus::Other => "other",
        }
    }
}

/// Where a payout goes; `Other` stands for any value that this library does not know.
#[derive(Clone, Copy, Debug, PartialEq, Eq, Structural)]
pub enum PayoutType {
    BankAccount,
    Card,
    Other,
}

impl PayoutType {
    /// The name that the API gives the value.
    pub open spec fn wire(self) -> Seq<char> {
        match self {
            PayoutType::BankAccount => "bank_account"@,
            PayoutType::Card => "card"@,
            PayoutType::Other => "other"@,
        }
    }

    /// The value that the API means by `s`: the one of that name, else `Other`.
    pub open spec fn from_wire_spec(s: Seq<char>) -> Self {
        if s == "bank_account"@ {
            PayoutType::BankAccount
        } else if s == "card"@ {
            PayoutType::Card
        } else {
            PayoutType::Other
        }
    }

    /// Reads a value as the API writes it; a name not known here gives `Other`.
    pub fn from_wire(s: &str) -> (r: Self)
        ensures
            r == Self::from_wire_spec(s@),
    {
        if str_eq(s, "bank_account") {
            PayoutType::BankAccount
        } else if str_eq(s, "card") {
            PayoutType::Card
        } else {
            PayoutType::Other
        }
    }

    /// The name that the API gives the value.
    pub fn as_str(&self) -> (r: &'static str)
        ensures
            r@ == self.wire(),
    {
        match self {
            PayoutType::BankAccount => "bank_account",
            PayoutType::Card => "card",
            PayoutType::Other => "other",
        }
    }
}

/// A payout: funds sent from the account balance to a bank account or card.
#[derive(Clone, Debug)]
pub struct Payout {
    pub id: String,
    pub object: String,
    pub amount: u64,
    pub arrival_date: Timestamp,
    pub balance_transaction: String,
    pub created: Timestamp,
    pub currency: String,
    pub description: String,
    pub destination: Option<String>,
    pub failure_balance_transaction: Option<String>,
    pub failure_code: Option<PayoutFailureCode>,
    pub failure_message: Option<String>,
    pub livemode: bool,
    pub metadata: Metadata,
    pub method: PayoutMethod,
    pub source_type: PayoutSourceType,
    pub statement_descriptor: Option<String>,
    pub status: PayoutStatus,
    pub payout_type: PayoutType,
}

impl Payout {
    /// Whether the value at `at` in `doc` holds every member that the record needs.
    pub open spec fn decodable(doc: Seq<u8>, at: Seq<char>) -> bool {
        &&& json_text_at(doc, member(at, "id"@)) is Some
        &&& json_text_at(doc, member(at, "object"@)) is Some
        &&& json_u64_at(doc, member(at, "amount"@)) is Some
        &&& json_i64_at(doc, member(at, "arrival_date"@)) is Some
        &&& json_text_at(doc, member(at, "balance_transaction"@)) is Some
        &&& json_i64_at(doc, member(at, "created"@)) is Some
        &&& json_text_at(doc, member(at, "currency"@)) is Some
        &&& json_text_at(doc, member(at, "description"@)) is Some
        &&& json_bool_at(doc, member(at, "livemode"@)) is Some
        &&& metadata_decodable(doc, member(at, "metadata"@))
        &&& json_text_at(doc, member(at, "method"@)) is Some
        &&& json_text_at(doc, member(at, "source_type"@)) is Some
        &&& json_text_at(doc, member(at, "status"@)) is Some
        &&& json_text_at(doc, member(at, "type"@)) is Some
    }

    /// Whether the record holds what the value at `at` in `doc` says, member by member.
    pub open spec fn decodes_to(self, doc: Seq<u8>, at: Seq<char>) -> bool {
        &&& self.id@ == json_text_at(doc, member(at, "id"@))->Some_0
        &&& self.object@ == json_text_at(doc, member(at, "object"@))->Some_0
        &&& self.amount == json_u64_at(doc, member(at, "amount"@))->Some_0
        &&& self.arrival_date == json_i64_at(doc, member(at, "arrival_date"@))->Some_0
        &&& self.balance_transaction@ == json_text_at(doc, member(at, "balance_transaction"@))->Some_0
        &&& self.created == json_i64_at(doc, member(at, "created"@))->Some_0
        &&& self.currency@ == json_text_at(doc, member(at, "currency"@))->Some_0
        &&& self.description@ == json_text_at(doc, member(at, "description"@))->Some_0
        &&& opt_text(self.destination) == json_text_at(doc, member(at, "destination"@))
        &&& opt_text(self.failure_balance_transaction) == json_text_at(doc, member(at, "failure_balance_transaction"@))
        &&& self.failure_code == (match json_text_at(doc, member(at, "failure_code"@)) {
            Some(s) => Some(PayoutFailureCode::from_wire_spec(s)),
            None => None,
        })
        &&& opt_text(self.failure_message) == json_text_at(doc, member(at, "failure_message"@))
        &&& self.livemode == json_bool_at(doc, member(at, "livemode"@))->Some_0
        &&& self.metadata@ == metadata_json(doc, member(at, "metadata"@))
        &&& self.method == PayoutMethod::from_wire_spec(json_text_at(doc, member(at, "method"@))->Some_0)
        &&& self.source_type == PayoutSourceType::from_wire_spec(json_text_at(doc, member(at, "source_type"@))->Some_0)
        &&& opt_text(self.statement_descriptor) == json_text_at(doc, member(at, "statement_descriptor"@))
        &&& self.status == PayoutStatus::from_wire_spec(json_text_at(doc, member(at, "status"@))->Some_0)
        &&& self.payout_type == PayoutType::from_wire_spec(json_text_at(doc, member(at, "type"@))->Some_0)
    }

    /// Reads the record from the value at `at` in `doc`.
    pub fn decode(doc: &[u8], at: &str) -> (r: Result<Payout, Error>)
        ensures
            match r {
                Ok(v) => Payout::decodable(doc@, at@) && v.decodes_to(doc@, at@),
                Err(e) => !Payout::decodable(doc@, at@) && e is Decode,
            },
    {
        let id = match text_member(doc, at, "id") {
            Some(v) => v,
            None => {
                return Err(Error::Decode);
            },
        };
        let object = match text_member(doc, at, "object") {
            Some(v) => v,
            None => {
                return Err(Error::Decode);
            },
        };
        let amount = match u64_member(doc, at, "amount") {
            Some(v) => v,
            None => {
                return Err(Error::Decode);
            },
        };
        let arrival_date = match i64_member(doc, at, "arrival_date") {
            Some(v) => v,
            None => {
                return Err(Error::Decode);
            },
        };
        let balance_transaction = match text_member(doc, at, "balance_transaction") {
            Some(v) => v,
            None => {
                return Err(Error::Decode);
            },
        };
        let created = match i64_member(doc, at, "created") {
            Some(v) => v,
            None => {
                return Err(Error::Decode);
            },
        };
        let currency = match text_member(doc, at, "currency") {
            Some(v) => v,
            None => {
                return Err(Error::Decode);
            },
        };
        let description = match text_member(doc, at, "description") {
            Some(v) => v,
            None => {
                return Err(Error::Decode);
            },
        };
        let destination = text_member(doc, at, "destination");
        let failure_balance_transaction = text_member(doc, at, "failure_balance_transaction");
        let failure_code = match text_member(doc, at, "failure_code") {
            Some(v) => Some(PayoutFailureCode::from_wire(v.as_str())),
            None => None,
        };
        let failure_message = text_member(doc, at, "failure_message");
        let livemode = match bool_member(doc, at, "livemode") {
            Some(v) => v,
            None => {
                return Err(Error::Decode);
            },
        };
        let metadata = match metadata_member(doc, at, "metadata") {
            Some(v) => v,
            None => {
                return Err(Error::Decode);
            },
        };
        let method = match text_member(doc, at, "method") {
            Some(v) => PayoutMethod::from_wire(v.as_str()),
            None => {
                return Err(Error::Decode);
            },
        };
        let source_type = match text_member(doc, at, "source_type") {
            Some(v) => PayoutSourceType::from_wire(v.as_str()),
            None => {
                return Err(Error::Decode);
            },
        };
        let statement_descriptor = text_member(doc, at, "statement_descriptor");
        let status = match text_member(doc, at, "status") {
            Some(v) => PayoutStatus::from_wire(v.as_str()),
            None => {
                return Err(Error::Decode);
            },
        };
        let payout_type = match text_member(doc, at, "type") {
            Some(v) => PayoutType::from_wire(v.as_str()),
            None => {
                return Err(Error::Decode);
            },
        };
        Ok(Payout {
            id,
            object,
            amount,
            arrival_date,
            balance_transaction,
            created,
            currency,
            description,
            destination,
            failure_balance_transaction,
            failure_code,
            failure_message,
            livemode,
            metadata,
            method,
            source_type,
            statement_descriptor,
            status,
            payout_type,
        })
    }
}

impl Identifiable for Payout {
    open spec fn spec_id(&self) -> Seq<char> {
        self.id@
    }

    fn id(&self) -> (r: &str) {
        self.id.as_str()
    }
}

impl Readable for Payout {
    open spec fn readable(doc: Seq<u8>, at: Seq<char>) -> bool {
        Payout::decodable(doc, at)
    }

    open spec fn read_as(&self, doc: Seq<u8>, at: Seq<char>) -> bool {
        self.decodes_to(doc, at)
    }

    fn read(doc: &[u8], at: &str) -> (r: Result<Self, Error>) {
        Payout::decode(doc, at)
    }
}

/// The parameters for creating a payout.
#[derive(Clone, Debug, Default)]
pub struct PayoutParams {
    pub amount: u64,
    pub currency: String,
    pub description: Option<String>,
    pub destination: Option<String>,
    pub metadata: Option<Metadata>,
    pub method: Option<PayoutMethod>,
    pub source_type: Option<PayoutSourceType>,
    pub statement_descriptor: Option<String>,
}

impl PayoutParams {
    /// The fields that the parameters encode to, in order; unset ones are left out.
    pub open spec fn form_spec(&self) -> Seq<FieldView> {
        Seq::<FieldView>::empty() + plain_view("amount"@, decimal(self.amount as int))
            + plain_view("currency"@, self.currency@)
            + opt_view_field("description"@, opt_text(self.description))
            + opt_view_field("destination"@, opt_text(self.destination))
            + opt_metadata_view("metadata"@, self.metadata)
            + opt_view_field("method"@, match self.method {
            Some(v) => Some(v.wire()),
            None => None,
        })
            + opt_view_field("source_type"@, match self.source_type {
            Some(v) => Some(v.wire()),
            None => None,
        })
            + opt_view_field("statement_descriptor"@, opt_text(self.statement_descriptor))
    }

    /// The parameters as form fields.
    pub fn to_form(&self) -> (r: Vec<FormField>)
        ensures
            fields_view(r@) == self.form_spec(),
    {
        let mut out: Vec<FormField> = Vec::new();
        assert(fields_view(out@) =~= Seq::<FieldView>::empty());
        push_u64(&mut out, "amount", self.amount);
        push_plain(&mut out, "currency", self.currency.clone());
        push_opt_text(&mut out, "description", &self.description);
        push_opt_text(&mut out, "destination", &self.destination);
        push_opt_metadata(&mut out, "metadata", &self.metadata);
        match self.method {
            Some(v) => push_plain(&mut out, "method", String::from_str(v.as_str())),
            None => {},
        }
        match self.source_type {
            Some(v) => push_plain(&mut out, "source_type", String::from_str(v.as_str())),
            None => {},
        }
        push_opt_text(&mut out, "statement_descriptor", &self.statement_descriptor);
        assert(fields_view(out@) =~= self.form_spec());
        out
    }
}

/// The parameters for listing payouts.
#[derive(Clone, Debug, Default)]
pub struct PayoutListParams {
    pub arrival_date: Option<RangeQuery>,
    pub created: Option<RangeQuery>,
    pub destination: Option<String>,
    pub ending_before: Option<String>,
    pub limit: Option<i64>,
    pub starting_after: Option<String>,
    pub status: Option<PayoutStatus>,
}

impl ListParams for PayoutListParams {
    open spec fn form_spec(&self) -> Seq<FieldView> {
        Seq::<FieldView>::empty() + opt_range_view("arrival_date"@, self.arrival_date)
            + opt_range_view("created"@, self.created)
            + opt_view_field("destination"@, opt_text(self.destination))
            + opt_view_field("ending_before"@, opt_text(self.ending_before))
            + opt_view_field("limit"@, opt_decimal_i64(self.limit))
            + opt_view_field("starting_after"@, opt_text(self.starting_after))
            + opt_view_field("status"@, match self.status {
            Some(v) => Some(v.wire()),
            None => None,
        })
    }

    fn to_form(&self) -> (r: Vec<FormField>) {
        let mut out: Vec<FormField> = Vec::new();
        assert(fields_view(out@) =~= Seq::<FieldView>::empty());
        push_opt_range(&mut out, "arrival_date", &self.arrival_date);
        push_opt_range(&mut out, "created", &self.created);
        push_opt_text(&mut out, "destination", &self.destination);
        push_opt_text(&mut out, "ending_before", &self.ending_before);
        push_opt_i64(&mut out, "limit", self.limit);
        push_opt_text(&mut out, "starting_after", &self.starting_after);
        match self.status {
            Some(v) => push_plain(&mut out, "status", String::from_str(v.as_str())),
            None => {},
        }
        assert(fields_view(out@) =~= self.form_spec());
        out
    }
}

impl Payout {
    /// The request that creates a payout: a `POST` of the parameters to `/payouts`.
    pub fn create_request(params: &PayoutParams) -> (r: Request)
        ensures
            r.method == Method::Post,
            r.path@ == "/payouts"@,
            r.body matches Some(b) && b@ == form_text(params.form_spec()),
    {
        post_form(String::from_str("/payouts"), &params.to_form())
    }

    /// Creates a payout.
    pub fn create<C: Client>(client: &C, params: PayoutParams) -> (r: Result<Payout, Error>)
        ensures
            send_outcome(r),
    {
        call(client, &Payout::create_request(&params))
    }

    /// The request that retrieves a payout: a `GET` of `/payouts/{id}`.
    pub fn retrieve_request(payout_id: &str) -> (r: Request)
        ensures
            r.method == Method::Get,
            r.path@ == join("/payouts"@, payout_id@),
            r.body is None,
    {
        get_path(join_path("/payouts", payout_id))
    }

    /// Retrieves a payout by its identifier.
    pub fn retrieve<C: Client>(client: &C, payout_id: &str) -> (r: Result<Payout, Error>)
        ensures
            send_outcome(r),
    {
        call(client, &Payout::retrieve_request(payout_id))
    }

    /// The request that updates a payout's metadata: a `POST` to `/payouts/{id}` of
    /// `metadata[key]=value` for each entry; an empty body where no metadata is given.
    pub fn update_request(payout_id: &str, metadata: &Option<Metadata>) -> (r: Request)
        ensures
            r.method == Method::Post,
            r.path@ == join("/payouts"@, payout_id@),
            r.body matches Some(b) && b@ == form_text(opt_metadata_view("metadata"@, *metadata)),
    {
        let mut fields: Vec<FormField> = Vec::new();
        push_opt_metadata(&mut fields, "metadata", metadata);
        assert(fields_view(fields@) =~= opt_metadata_view("metadata"@, *metadata));
        post_form(join_path("/payouts", payout_id), &fields)
    }

    /// Updates a payout's metadata.
    pub fn update<C: Client>(client: &C, payout_id: &str, metadata: Option<Metadata>) -> (r:
        Result<Payout, Error>)
        ensures
            send_outcome(r),
    {
        call(client, &Payout::update_request(payout_id, &metadata))
    }

    /// The request that lists payouts: a `GET` of `/payouts` with the parameters as query
    /// string.
    pub fn list_request(params: &PayoutListParams) -> (r: Request)
        ensures
            r.method == Method::Get,
            r.path@ == "/payouts"@ + seq!['?'] + form_text(params.form_spec()),
            r.body is None,
    {
        get_query("/payouts", &params.to_form())
    }

    /// Lists payouts, one page.
    pub fn list<C: Client>(client: &C, params: PayoutListParams) -> (r: Result<
        List<Payout>,
        Error,
    >)
        ensures
            send_outcome(r),
    {
        call(client, &Payout::list_request(&params))
    }

    /// The request that cancels a payout: a `POST` without a body to `/payouts/{id}/cancel`.
    pub fn cancel_request(payout_id: &str) -> (r: Request)
        ensures
            r.method == Method::Post,
            r.path@ == join(join("/payouts"@, payout_id@), "cancel"@),
            r.body is None,
    {
        let path = join_path(join_path("/payouts", payout_id).as_str(), "cancel");
        Request { method: Method::Post, path, body: None }
    }

    /// Cancels a payout.
    pub fn cancel<C: Client>(client: &C, payout_id: &str) -> (r: Result<Payout, Error>)
        ensures
            send_outcome(r),
    {
        call(client, &Payout::cancel_request(payout_id))
    }
}

} // verus!
