use vstd::prelude::*;

use crate::client::{
    call, get_path, get_query, join, join_path, post_form, send_outcome, Client, Identifiable,
    Method, Readable, Request,
};
use crate::error::Error;
use crate::form::{
    decimal, fields_view, form_text, list_view, opt_bool_text, opt_decimal_i64, opt_decimal_u64,
    opt_text, opt_view_field, plain_view, push_list, push_opt_bool, push_opt_i64, push_opt_text,
    push_opt_u64, push_plain, push_u64, str_eq, FieldView, FormField,
};
use crate::json::{
    bool_member, i64_member, json_bool_at, json_i64_at, json_keys_at, json_text_at, json_u64_at,
    is_object, member, member_pointer, text_member, texts_decodable, texts_json, texts_member,
    u64_member,
};
use crate::list::{List, ListParams};
use crate::params::{
    metadata_decodable, metadata_json, metadata_member, opt_metadata_view, opt_range_view,
    push_opt_metadata, push_opt_range, Metadata, RangeQuery, Timestamp,
};

verus! {

/// The kind of an error that the API reports; `Other` stands for any value that this library does not know.
#[derive(Clone, Copy, Debug, PartialEq, Eq, Structural)]
pub enum PaymentErrorType {
    Api,
    Connection,
    Authentication,
    Card,
    Idempotency,
    InvalidRequest,
    RateLimit,
    Other,
}

impl PaymentErrorType {
    /// The name that the API gives the value.
    pub open spec fn wire(self) -> Seq<char> {
        match self {
            PaymentErrorType::Api => "api_error"@,
            PaymentErrorType::Connection => "api_connection_error"@,
            PaymentErrorType::Authentication => "authentication_error"@,
            PaymentErrorType::Card => "card_error"@,
            PaymentErrorType::Idempotency => "idempotency_error"@,
            PaymentErrorType::InvalidRequest => "invalid_request_error"@,
            PaymentErrorType::RateLimit => "rate_limit_error"@,
            PaymentErrorType::Other => "other"@,
        }
    }

    /// The value that the API means by `s`: the one of that name, else `Other`.
    pub open spec fn from_wire_spec(s: Seq<char>) -> Self {
        if s == "api_error"@ {
            PaymentErrorType::Api
        } else if s == "api_connection_error"@ {
            PaymentErrorType::Connection
        } else if s == "authentication_error"@ {
            PaymentErrorType::Authentication
        } else if s == "card_error"@ {
            PaymentErrorType::Card
        } else if s == "idempotency_error"@ {
            PaymentErrorType::Idempotency
        } else if s == "invalid_request_error"@ {
            PaymentErrorType::InvalidRequest
        } else if s == "rate_limit_error"@ {
            PaymentErrorType::RateLimit
        } else {
            PaymentErrorType::Other
        }
    }

    /// Reads a value as the API writes it; a name not known here gives `Other`.
    pub fn from_wire(s: &str) -> (r: Self)
        ensures
            r == Self::from_wire_spec(s@),
    {
        if str_eq(s, "api_error") {
            PaymentErrorType::Api
        } else if str_eq(s, "api_connection_error") {
            PaymentErrorType::Connection
        } else if str_eq(s, "authentication_error") {
            PaymentErrorType::Authentication
        } else if str_eq(s, "card_error") {
            PaymentErrorType::Card
        } else if str_eq(s, "idempotency_error") {
            PaymentErrorType::Idempotency
        } else if str_eq(s, "invalid_request_error") {
            PaymentErrorType::InvalidRequest
        } else if str_eq(s, "rate_limit_error") {
            PaymentErrorType::RateLimit
        } else {
            PaymentErrorType::Other
        }
    }

    /// The name that the API gives the value.
    pub fn as_str(&self) -> (r: &'static str)
        ensures
            r@ == self.wire(),
    {
        match self {
            PaymentErrorType::Api => "api_error",
            PaymentErrorType::Connection => "api_connection_error",
            PaymentErrorType::Authentication => "authentication_error",
            PaymentErrorType::Card => "card_error",
            PaymentErrorType::Idempotency => "idempotency_error",
            PaymentErrorType::InvalidRequest => "invalid_request_error",
            PaymentErrorType::RateLimit => "rate_limit_error",
            PaymentErrorType::Other => "other",
        }
    }
}

/// The status of a payment intent; `Other` stands for any value that this library does not know.
#[derive(Clone, Copy, Debug, PartialEq, Eq, Structural)]
pub enum PaymentIntentStatus {
    RequiresSource,
    RequiresConfirmation,
    RequiresSourceAction,
    Processing,
    RequiresCapture,
    Canceled,
    Succeeded,
    Other,
}

impl PaymentIntentStatus {
    /// A status name that names none of the known statuses reads as `Other`.
    pub proof fn lemma_unknown_is_other(s: Seq<char>)
        requires
            forall|v: PaymentIntentStatus| v != PaymentIntentStatus::Other ==> s != #[trigger] v.wire(),
        ensures
            PaymentIntentStatus::from_wire_spec(s) == PaymentIntentStatus::Other,
    {
        assert(s != PaymentIntentStatus::RequiresSource.wire());
        assert(s != PaymentIntentStatus::RequiresConfirmation.wire());
        assert(s != PaymentIntentStatus::RequiresSourceAction.wire());
        assert(s != PaymentIntentStatus::Processing.wire());
        assert(s != PaymentIntentStatus::RequiresCapture.wire());
        assert(s != PaymentIntentStatus::Canceled.wire());
        assert(s != PaymentIntentStatus::Succeeded.wire());
    }

    /// The name that the API gives the value.
    pub open spec fn wire(self) -> Seq<char> {
        match self {
            PaymentIntentStatus::RequiresSource => "requires_source"@,
            PaymentIntentStatus::RequiresConfirmation => "requires_confirmation"@,
            PaymentIntentStatus::RequiresSourceAction => "requires_source_action"@,
            PaymentIntentStatus::Processing => "processing"@,
            PaymentIntentStatus::RequiresCapture => "requires_capture"@,
            PaymentIntentStatus::Canceled => "canceled"@,
            PaymentIntentStatus::Succeeded => "succeeded"@,
            PaymentIntentStatus::Other => "other"@,
        }
    }

    /// The value that the API means by `s`: the one of that name, else `Other`.
    pub open spec fn from_wire_spec(s: Seq<char>) -> Self {
        if s == "requires_source"@ {
            PaymentIntentStatus::RequiresSource
        } else if s == "requires_confirmation"@ {
            PaymentIntentStatus::RequiresConfirmation
        } else if s == "requires_source_action"@ {
            PaymentIntentStatus::RequiresSourceAction
        } else if s == "processing"@ {
            PaymentIntentStatus::Processing
        } else if s == "requires_capture"@ {
            PaymentIntentStatus::RequiresCapture
        } else if s == "canceled"@ {
            PaymentIntentStatus::Canceled
        } else if s == "succeeded"@ {
            PaymentIntentStatus::Succeeded
        } else {
            PaymentIntentStatus::Other
        }
    }

    /// Reads a value as the API writes it; a name not known here gives `Other`.
    pub fn from_wire(s: &str) -> (r: Self)
        ensures
            r == Self::from_wire_spec(s@),
    {
        if str_eq(s, "requires_source") {
            PaymentIntentStatus::RequiresSource
        } else if str_eq(s, "requires_confirmation") {
            PaymentIntentStatus::RequiresConfirmation
        } else if str_eq(s, "requires_source_action") {
            PaymentIntentStatus::RequiresSourceAction
        } else if str_eq(s, "processing") {
            PaymentIntentStatus::Processing
        } else if str_eq(s, "requires_capture") {
            PaymentIntentStatus::RequiresCapture
        } else if str_eq(s, "canceled") {
            PaymentIntentStatus::Canceled
        } else if str_eq(s, "succeeded") {
            PaymentIntentStatus::Succeeded
        } else {
            PaymentIntentStatus::Other
        }
    }

    /// The name that the API gives the value.
    pub fn as_str(&self) -> (r: &'static str)
        ensures
            r@ == self.wire(),
    {
        match self {
            PaymentIntentStatus::RequiresSource => "requires_source",
            PaymentIntentStatus::RequiresConfirmation => "requires_confirmation",
            PaymentIntentStatus::RequiresSourceAction => "requires_source_action",
            PaymentIntentStatus::Processing => "processing",
            PaymentIntentStatus::RequiresCapture => "requires_capture",
            PaymentIntentStatus::Canceled => "canceled",
            PaymentIntentStatus::Succeeded => "succeeded",
            PaymentIntentStatus::Other => "other",
        }
    }
}

/// Why a payment intent was canceled; `Other` stands for any value that this library does not know.
#[derive(Clone, Copy, Debug, PartialEq, Eq, Structural)]
pub enum CancellationReason {
    Duplicate,
    Fraudulent,
    RequestedByCustomer,
    Other,
}

impl CancellationReason {
    /// The name that the API gives the value.
    pub open spec fn wire(self) -> Seq<char> {
        match self {
            CancellationReason::Duplicate => "duplicate"@,
            CancellationReason::Fraudulent => "fraudulent"@,
            CancellationReason::RequestedByCustomer => "requested_by_customer"@,
            CancellationReason::Other => "other"@,
        }
    }

    /// The value that the API means by `s`: the one of that name, else `Other`.
    pub open spec fn from_wire_spec(s: Seq<char>) -> Self {
        if s == "duplicate"@ {
            CancellationReason::Duplicate
        } else if s == "fraudulent"@ {
            CancellationReason::Fraudulent
        } else if s == "requested_by_customer"@ {
            CancellationReason::RequestedByCustomer
        } else {
            CancellationReason::Other
        }
    }

    /// Reads a value as the API writes it; a name not known here gives `Other`.
    pub fn from_wire(s: &str) -> (r: Self)
        ensures
            r == Self::from_wire_spec(s@),
    {
        if str_eq(s, "duplicate") {
            CancellationReason::Duplicate
        } else if str_eq(s, "fraudulent") {
            CancellationReason::Fraudulent
        } else if str_eq(s, "requested_by_customer") {
            CancellationReason::RequestedByCustomer
        } else {
            CancellationReason::Other
        }
    }

    /// The name that the API gives the value.
    pub fn as_str(&self) -> (r: &'static str)
        ensures
            r@ == self.wire(),
    {
        match self {
            CancellationReason::Duplicate => "duplicate",
            CancellationReason::Fraudulent => "fraudulent",
            CancellationReason::RequestedByCustomer => "requested_by_customer",
            CancellationReason::Other => "other",
        }
    }
}

/// How the funds of a payment intent are captured; `Other` stands for any value that this library does not know.
#[derive(Clone, Copy, Debug, PartialEq, Eq, Structural)]
pub enum CaptureMethod {
    Automatic,
    Manual,
    Other,
}

impl CaptureMethod {
    /// The name that the API gives the value.
    pub open spec fn wire(self) -> Seq<char> {
        match self {
            CaptureMethod::Automatic => "automatic"@,
            CaptureMethod::Manual => "manual"@,
            CaptureMethod::Other => "other"@,
        }
    }

    /// The value that the API means by `s`: the one of that name, else `Other`.
    pub open spec fn from_wire_spec(s: Seq<char>) -> Self {
        if s == "automatic"@ {
            CaptureMethod::Automatic
        } else if s == "manual"@ {
            CaptureMethod::Manual
        } else {
            CaptureMethod::Other
        }
    }

    /// Reads a value as the API writes it; a name not known here gives `Other`.
    pub fn from_wire(s: &str) -> (r: Self)
        ensures
            r == Self::from_wire_spec(s@),
    {
        if str_eq(s, "automatic") {
            CaptureMethod::Automatic
        } else if str_eq(s, "manual") {
            CaptureMethod::Manual
        } else {
            CaptureMethod::Other
        }
    }

    /// The name that the API gives the value.
    pub fn as_str(&self) -> (r: &'static str)
        ensures
            r@ == self.wire(),
    {
        match self {
            CaptureMethod::Automatic => "automatic",
            CaptureMethod::Manual => "manual",
            CaptureMethod::Other => "other",
        }
    }
}

/// How a payment intent may be confirmed; `Other` stands for any value that this library does not know.
#[derive(Clone, Copy, Debug, PartialEq, Eq, Structural)]
pub enum ConfirmationMethod {
    Secret,
    Publishable,
    Other,
}

impl ConfirmationMethod {
    /// The name that the API gives the value.
    pub open spec fn wire(self) -> Seq<char> {
        match self {
            ConfirmationMethod::Secret => "secret"@,
            ConfirmationMethod::Publishable => "publishable"@,
            ConfirmationMethod::Other => "other"@,
        }
    }

    /// The value that the API means by `s`: the one of that name, else `Other`.
    pub open spec fn from_wire_spec(s: Seq<char>) -> Self {
        if s == "secret"@ {
            ConfirmationMethod::Secret
        } else if s == "publishable"@ {
            ConfirmationMethod::Publishable
        } else {
            ConfirmationMethod::Other
        }
    }

    /// Reads a value as the API writes it; a name not known here gives `Other`.
    pub fn from_wire(s: &str) -> (r: Self)
        ensures
            r == Self::from_wire_spec(s@),
    {
        if str_eq(s, "secret") {
            ConfirmationMethod::Secret
        } else if str_eq(s, "publishable") {
            ConfirmationMethod::Publishable
        } else {
            ConfirmationMethod::Other
        }
    }

    /// The name that the API gives the value.
    pub fn as_str(&self) -> (r: &'static str)
        ensures
            r@ == self.wire(),
    {
        match self {
            ConfirmationMethod::Secret => "secret",
            ConfirmationMethod::Publishable => "publishable",
            ConfirmationMethod::Other => "other",
        }
    }
}

/// The kind of action that a source needs next; `Other` stands for any value that this library does not know.
#[derive(Clone, Copy, Debug, PartialEq, Eq, Structural)]
pub enum SourceActionType {
    AuthorizeWithUrl,
    UseStripeSdk,
    Other,
}

impl SourceActionType {
    /// The name that the API gives the value.
    pub open spec fn wire(self) -> Seq<char> {
        match self {
            SourceActionType::AuthorizeWithUrl => "authorize_with_url"@,
            SourceActionType::UseStripeSdk => "use_stripe_sdk"@,
            SourceActionType::Other => "other"@,
        }
    }

    /// The value that the API means by `s`: the one of that name, else `Other`.
    pub open spec fn from_wire_spec(s: Seq<char>) -> Self {
        if s == "authorize_with_url"@ {
            SourceActionType::AuthorizeWithUrl
        } else if s == "use_stripe_sdk"@ {
            SourceActionType::UseStripeSdk
        } else {
            SourceActionType::Other
        }
    }

    /// Reads a value as the API writes it; a name not known here gives `Other`.
    pub fn from_wire(s: &str) -> (r: Self)
        ensures
            r == Self::from_wire_spec(s@),
    {
        if str_eq(s, "authorize_with_url") {
            SourceActionType::AuthorizeWithUrl
        } else if str_eq(s, "use_stripe_sdk") {
            SourceActionType::UseStripeSdk
        } else {
            SourceActionType::Other
        }
    }

    /// The name that the API gives the value.
    pub fn as_str(&self) -> (r: &'static str)
        ensures
            r@ == self.wire(),
    {
        match self {
            SourceActionType::AuthorizeWithUrl => "authorize_with_url",
            SourceActionType::UseStripeSdk => "use_stripe_sdk",
            SourceActionType::Other => "other",
        }
    }
}

/// An error that the API reports, for a payment or for a request.
#[derive(Clone, Debug)]
pub struct PaymentError {
    pub payment_error_type: PaymentErrorType,
    pub charge: Option<String>,
    pub code: Option<String>,
    pub decline_code: Option<String>,
    pub doc_url: Option<String>,
    pub message: Option<String>,
    pub param: Option<String>,
    pub source: Option<String>,
}

impl PaymentError {
    /// Whether the value at `at` in `doc` holds every member that the record needs.
    pub open spec fn decodable(doc: Seq<u8>, at: Seq<char>) -> bool {
        json_text_at(doc, member(at, "type"@)) is Some
    }

    /// Whether the record holds what the value at `at` in `doc` says, member by member.
    pub open spec fn decodes_to(self, doc: Seq<u8>, at: Seq<char>) -> bool {
        &&& self.payment_error_type == PaymentErrorType::from_wire_spec(json_text_at(doc, member(at, "type"@))->Some_0)
        &&& opt_text(self.charge) == json_text_at(doc, member(at, "charge"@))
        &&& opt_text(self.code) == json_text_at(doc, member(at, "code"@))
        &&& opt_text(self.decline_code) == json_text_at(doc, member(at, "decline_code"@))
        &&& opt_text(self.doc_url) == json_text_at(doc, member(at, "doc_url"@))
        &&& opt_text(self.message) == json_text_at(doc, member(at, "message"@))
        &&& opt_text(self.param) == json_text_at(doc, member(at, "param"@))
        &&& opt_text(self.source) == json_text_at(doc, member(at, "source"@))
    }

    /// Reads the record from the value at `at` in `doc`.
    pub fn decode(doc: &[u8], at: &str) -> (r: Result<PaymentError, Error>)
        ensures
            match r {
                Ok(v) => PaymentError::decodable(doc@, at@) && v.decodes_to(doc@, at@),
                Err(e) => !PaymentError::decodable(doc@, at@) && e is Decode,
            },
    {
        let payment_error_type = match text_member(doc, at, "type") {
            Some(v) => PaymentErrorType::from_wire(v.as_str()),
            None => {
                return Err(Error::Decode);
            },
        };
        let charge = text_member(doc, at, "charge");
        let code = text_member(doc, at, "code");
        let decline_code = text_member(doc, at, "decline_code");
        let doc_url = text_member(doc, at, "doc_url");
        let message = text_member(doc, at, "message");
        let param = text_member(doc, at, "param");
        let source = text_member(doc, at, "source");
        Ok(PaymentError {
            payment_error_type,
            charge,
            code,
            decline_code,
            doc_url,
            message,
            param,
            source,
        })
    }
}

/// Where to send a customer to authorize a payment.
#[derive(Clone, Debug)]
pub struct AuthorizeWithUrl {
    pub return_url: Option<String>,
    pub url: Option<String>,
}

impl AuthorizeWithUrl {
    /// Whether the value at `at` in `doc` holds every member that the record needs.
    pub open spec fn decodable(doc: Seq<u8>, at: Seq<char>) -> bool {
        json_keys_at(doc, at) is Some
    }

    /// Whether the record holds what the value at `at` in `doc` says, member by member.
    pub open spec fn decodes_to(self, doc: Seq<u8>, at: Seq<char>) -> bool {
        &&& opt_text(self.return_url) == json_text_at(doc, member(at, "return_url"@))
        &&& opt_text(self.url) == json_text_at(doc, member(at, "url"@))
    }

    /// Reads the record from the value at `at` in `doc`.
    pub fn decode(doc: &[u8], at: &str) -> (r: Result<AuthorizeWithUrl, Error>)
        ensures
            match r {
                Ok(v) => AuthorizeWithUrl::decodable(doc@, at@) && v.decodes_to(doc@, at@),
                Err(e) => !AuthorizeWithUrl::decodable(doc@, at@) && e is Decode,
            },
    {
        if !is_object(doc, at) {
            return Err(Error::Decode);
        }
        let return_url = text_member(doc, at, "return_url");
        let url = text_member(doc, at, "url");
        Ok(AuthorizeWithUrl { return_url, url })
    }
}

/// The action that a payment intent needs from its source next.
#[derive(Clone, Debug)]
pub struct NextSourceAction {
    pub authorize_with_url: Option<AuthorizeWithUrl>,
    pub action_type: SourceActionType,
}

impl NextSourceAction {
    /// Whether the value at `at` in `doc` holds every member that the record needs.
    pub open spec fn decodable(doc: Seq<u8>, at: Seq<char>) -> bool {
        json_text_at(doc, member(at, "type"@)) is Some
    }

    /// Whether the record holds what the value at `at` in `doc` says, member by member.
    pub open spec fn decodes_to(self, doc: Seq<u8>, at: Seq<char>) -> bool {
        &&& (match self.authorize_with_url {
            Some(v) => AuthorizeWithUrl::decodable(doc, member(at, "authorize_with_url"@)) && v.decodes_to(doc, member(at, "authorize_with_url"@)),
            None => !AuthorizeWithUrl::decodable(doc, member(at, "authorize_with_url"@)),
        })
        &&& self.action_type == SourceActionType::from_wire_spec(json_text_at(doc, member(at, "type"@))->Some_0)
    }

    /// Reads the record from the value at `at` in `doc`.
    pub fn decode(doc: &[u8], at: &str) -> (r: Result<NextSourceAction, Error>)
        ensures
            match r {
                Ok(v) => NextSourceAction::decodable(doc@, at@) && v.decodes_to(doc@, at@),
                Err(e) => !NextSourceAction::decodable(doc@, at@) && e is Decode,
            },
    {
        let authorize_with_url = match AuthorizeWithUrl::decode(doc, member_pointer(at, "authorize_with_url").as_str()) {
            Ok(v) => Some(v),
            Err(_) => None,
        };
        let action_type = match text_member(doc, at, "type") {
            Some(v) => SourceActionType::from_wire(v.as_str()),
            None => {
                return Err(Error::Decode);
            },
        };
        Ok(NextSourceAction { authorize_with_url, action_type })
    }
}

/// Where the funds of a payment intent go.
#[derive(Clone, Debug)]
pub struct TransferData {
    pub destination: Option<String>,
}

impl TransferData {
    /// Whether the value at `at` in `doc` holds every member that the record needs.
    pub open spec fn decodable(doc: Seq<u8>, at: Seq<char>) -> bool {
        json_keys_at(doc, at) is Some
    }

    /// Whether the record holds what the value at `at` in `doc` says, member by member.
    pub open spec fn decodes_to(self, doc: Seq<u8>, at: Seq<char>) -> bool {
        opt_text(self.destination) == json_text_at(doc, member(at, "destination"@))
    }

    /// Reads the record from the value at `at` in `doc`.
    pub fn decode(doc: &[u8], at: &str) -> (r: Result<TransferData, Error>)
        ensures
            match r {
                Ok(v) => TransferData::decodable(doc@, at@) && v.decodes_to(doc@, at@),
                Err(e) => !TransferData::decodable(doc@, at@) && e is Decode,
            },
    {
        if !is_object(doc, at) {
            return Err(Error::Decode);
        }
        let destination = text_member(doc, at, "destination");
        Ok(TransferData { destination })
    }
}

/// A payment intent: the record of one attempt to collect a payment.
#[derive(Clone, Debug)]
pub struct PaymentIntent {
    pub id: String,
    pub object: String,
    pub allowed_source_types: Vec<String>,
    pub amount: u64,
    pub amount_capturable: u64,
    pub amount_received: u64,
    pub application: Option<String>,
    pub application_fee_amount: Option<u64>,
    pub canceled_at: Option<Timestamp>,
    pub cancellation_reason: Option<CancellationReason>,
    pub capture_method: CaptureMethod,
    pub client_secret: Option<String>,
    pub confirmation_method: Option<ConfirmationMethod>,
    pub created: Timestamp,
    pub currency: String,
    pub customer: Option<String>,
    pub description: Option<String>,
    pub last_payment_error: Option<PaymentError>,
    pub livemode: bool,
    pub metadata: Metadata,
    pub next_source_action: Option<NextSourceAction>,
    pub on_behalf_of: Option<String>,
    pub receipt_email: Option<String>,
    pub review: Option<String>,
    pub source: String,
    pub statement_descriptor: Option<String>,
    pub status: PaymentIntentStatus,
    pub transfer_data: Option<TransferData>,
    pub transfer_group: Option<String>,
}

impl PaymentIntent {
    /// Whether the value at `at` in `doc` holds every member that the record needs.
    pub open spec fn decodable(doc: Seq<u8>, at: Seq<char>) -> bool {
        &&& json_text_at(doc, member(at, "id"@)) is Some
        &&& json_text_at(doc, member(at, "object"@)) is Some
        &&& texts_decodable(doc, member(at, "allowed_source_types"@))
        &&& json_u64_at(doc, member(at, "amount"@)) is Some
        &&& json_u64_at(doc, member(at, "amount_capturable"@)) is Some
        &&& json_u64_at(doc, member(at, "amount_received"@)) is Some
        &&& json_text_at(doc, member(at, "capture_method"@)) is Some
        &&& json_i64_at(doc, member(at, "created"@)) is Some
        &&& json_text_at(doc, member(at, "currency"@)) is Some
        &&& json_bool_at(doc, member(at, "livemode"@)) is Some
        &&& metadata_decodable(doc, member(at, "metadata"@))
        &&& json_text_at(doc, member(at, "source"@)) is Some
        &&& json_text_at(doc, member(at, "status"@)) is Some
    }

    /// Whether the record holds what the value at `at` in `doc` says, member by member.
    pub open spec fn decodes_to(self, doc: Seq<u8>, at: Seq<char>) -> bool {
        &&& self.id@ == json_text_at(doc, member(at, "id"@))->Some_0
        &&& self.object@ == json_text_at(doc, member(at, "object"@))->Some_0
        &&& texts_json(doc, member(at, "allowed_source_types"@), self.allowed_source_types@)
        &&& self.amount == json_u64_at(doc, member(at, "amount"@))->Some_0
        &&& self.amount_capturable == json_u64_at(doc, member(at, "amount_capturable"@))->Some_0
        &&& self.amount_received == json_u64_at(doc, member(at, "amount_received"@))->Some_0
        &&& opt_text(self.application) == json_text_at(doc, member(at, "application"@))
        &&& self.application_fee_amount == json_u64_at(doc, member(at, "application_fee_amount"@))
        &&& self.canceled_at == json_i64_at(doc, member(at, "canceled_at"@))
        &&& self.cancellation_reason == (match json_text_at(doc, member(at, "cancellation_reason"@)) {
            Some(s) => Some(CancellationReason::from_wire_spec(s)),
            None => None,
        })
        &&& self.capture_method == CaptureMethod::from_wire_spec(json_text_at(doc, member(at, "capture_method"@))->Some_0)
        &&& opt_text(self.client_secret) == json_text_at(doc, member(at, "client_secret"@))
        &&& self.confirmation_method == (match json_text_at(doc, member(at, "confirmation_method"@)) {
            Some(s) => Some(ConfirmationMethod::from_wire_spec(s)),
            None => None,
        })
        &&& self.created == json_i64_at(doc, member(at, "created"@))->Some_0
        &&& self.currency@ == json_text_at(doc, member(at, "currency"@))->Some_0
        &&& opt_text(self.customer) == json_text_at(doc, member(at, "customer"@))
        &&& opt_text(self.description) == json_text_at(doc, member(at, "description"@))
        &&& (match self.last_payment_error {
            Some(v) => PaymentError::decodable(doc, member(at, "last_payment_error"@)) && v.decodes_to(doc, member(at, "last_payment_error"@)),
            None => !PaymentError::decodable(doc, member(at, "last_payment_error"@)),
        })
        &&& self.livemode == json_bool_at(doc, member(at, "livemode"@))->Some_0
        &&& self.metadata@ == metadata_json(doc, member(at, "metadata"@))
        &&& (match self.next_source_action {
            Some(v) => NextSourceAction::decodable(doc, member(at, "next_source_action"@)) && v.decodes_to(doc, member(at, "next_source_action"@)),
            None => !NextSourceAction::decodable(doc, member(at, "next_source_action"@)),
        })
        &&& opt_text(self.on_behalf_of) == json_text_at(doc, member(at, "on_behalf_of"@))
        &&& opt_text(self.receipt_email) == json_text_at(doc, member(at, "receipt_email"@))
        &&& opt_text(self.review) == json_text_at(doc, member(at, "review"@))
        &&& self.source@ == json_text_at(doc, member(at, "source"@))->Some_0
        &&& opt_text(self.statement_descriptor) == json_text_at(doc, member(at, "statement_descriptor"@))
        &&& self.status == PaymentIntentStatus::from_wire_spec(json_text_at(doc, member(at, "status"@))->Some_0)
        &&& (match self.transfer_data {
            Some(v) => TransferData::decodable(doc, member(at, "transfer_data"@)) && v.decodes_to(doc, member(at, "transfer_data"@)),
            None => !TransferData::decodable(doc, member(at, "transfer_data"@)),
        })
        &&& opt_text(self.transfer_group) == json_text_at(doc, member(at, "transfer_group"@))
    }

    /// Reads the record from the value at `at` in `doc`.
    pub fn decode(doc: &[u8], at: &str) -> (r: Result<PaymentIntent, Error>)
        ensures
            match r {
                Ok(v) => PaymentIntent::decodable(doc@, at@) && v.decodes_to(doc@, at@),
                Err(e) => !PaymentIntent::decodable(doc@, at@) && e is Decode,
            },
    {
        let id = match text_member(doc, at, "id") {
            Some(v) => v,
            None => {
                return Err(Error::Decode);
            },
        };
        let object = match text_member(doc, at, "object") {
            Some(v) => v,
            None => {
                return Err(Error::Decode);
            },
        };
        let allowed_source_types = match texts_member(doc, at, "allowed_source_types") {
            Some(v) => v,
            None => {
                return Err(Error::Decode);
            },
        };
        let amount = match u64_member(doc, at, "amount") {
            Some(v) => v,
            None => {
                return Err(Error::Decode);
            },
        };
        let amount_capturable = match u64_member(doc, at, "amount_capturable") {
            Some(v) => v,
            None => {
                return Err(Error::Decode);
            },
        };
        let amount_received = match u64_member(doc, at, "amount_received") {
            Some(v) => v,
            None => {
                return Err(Error::Decode);
            },
        };
        let application = text_member(doc, at, "application");
        let application_fee_amount = u64_member(doc, at, "application_fee_amount");
        let canceled_at = i64_member(doc, at, "canceled_at");
        let cancellation_reason = match text_member(doc, at, "cancellation_reason") {
            Some(v) => Some(CancellationReason::from_wire(v.as_str())),
            None => None,
        };
        let capture_method = match text_member(doc, at, "capture_method") {
            Some(v) => CaptureMethod::from_wire(v.as_str()),
            None => {
                return Err(Error::Decode);
            },
        };
        let client_secret = text_member(doc, at, "client_secret");
        let confirmation_method = match text_member(doc, at, "confirmation_method") {
            Some(v) => Some(ConfirmationMethod::from_wire(v.as_str())),
            None => None,
        };
        let created = match i64_member(doc, at, "created") {
            Some(v) => v,
            None => {
                return Err(Error::Decode);
            },
        };
        let currency = match text_member(doc, at, "currency") {
            Some(v) => v,
            None => {
                return Err(Error::Decode);
            },
        };
        let customer = text_member(doc, at, "customer");
        let description = text_member(doc, at, "description");
        let last_payment_error = match PaymentError::decode(doc, member_pointer(at, "last_payment_error").as_str()) {
            Ok(v) => Some(v),
            Err(_) => None,
        };
        let livemode = match bool_member(doc, at, "livemode") {
            Some(v) => v,
            None => {
                return Err(Error::Decode);
            },
        };
        let metadata = match metadata_member(doc, at, "metadata") {
            Some(v) => v,
            None => {
                return Err(Error::Decode);
            },
        };
        let next_source_action = match NextSourceAction::decode(doc, member_pointer(at, "next_source_action").as_str()) {
            Ok(v) => Some(v),
            Err(_) => None,
        };
        let on_behalf_of = text_member(doc, at, "on_behalf_of");
        let receipt_email = text_member(doc, at, "receipt_email");
        let review = text_member(doc, at, "review");
        let source = match text_member(doc, at, "source") {
            Some(v) => v,
            None => {
                return Err(Error::Decode);
            },
        };
        let statement_descriptor = text_member(doc, at, "statement_descriptor");
        let status = match text_member(doc, at, "status") {
            Some(v) => PaymentIntentStatus::from_wire(v.as_str()),
            None => {
                return Err(Error::Decode);
            },
        };
        let transfer_data = match TransferData::decode(doc, member_pointer(at, "transfer_data").as_str()) {
            Ok(v) => Some(v),
            Err(_) => None,
        };
        let transfer_group = text_member(doc, at, "transfer_group");
        Ok(PaymentIntent {
            id,
            object,
            allowed_source_types,
            amount,
            amount_capturable,
            amount_received,
            application,
            application_fee_amount,
            canceled_at,
            cancellation_reason,
            capture_method,
            client_secret,
            confirmation_method,
            created,
            currency,
            customer,
            description,
            last_payment_error,
            livemode,
            metadata,
            next_source_action,
            on_behalf_of,
            receipt_email,
            review,
            source,
            statement_descriptor,
            status,
            transfer_data,
            transfer_group,
        })
    }
}

impl Identifiable for PaymentIntent {
    open spec fn spec_id(&self) -> Seq<char> {
        self.id@
    }

    fn id(&self) -> (r: &str) {
        self.id.as_str()
    }
}

impl Readable for PaymentIntent {
    open spec fn readable(doc: Seq<u8>, at: Seq<char>) -> bool {
        PaymentIntent::decodable(doc, at)
    }

    open spec fn read_as(&self, doc: Seq<u8>, at: Seq<char>) -> bool {
        self.decodes_to(doc, at)
    }

    fn read(doc: &[u8], at: &str) -> (r: Result<Self, Error>) {
        PaymentIntent::decode(doc, at)
    }
}

/// The fields of optional transfer data under `name`: its destination, where one is set.
pub open spec fn transfer_data_view(name: Seq<char>, t: Option<TransferData>) -> Seq<FieldView> {
    match t {
        Some(td) => match td.destination {
            Some(d) => seq![FieldView { name, sub: Some("destination"@), value: d@ }],
            None => Seq::empty(),
        },
        None => Seq::empty(),
    }
}

fn push_transfer_data(out: &mut Vec<FormField>, name: &str, t: &Option<TransferData>)
    ensures
        fields_view(final(out)@) == fields_view(old(out)@) + transfer_data_view(name@, *t),
{
    let ghost before = out@;
    match t {
        Some(td) => match &td.destination {
            Some(d) => {
                let f = FormField::nested(name, String::from_str("destination"), d.clone());
                out.push(f);
                assert(fields_view(out@) =~= fields_view(before).push(f@));
            },
            None => {},
        },
        None => {},
    }
    assert(fields_view(out@) =~= fields_view(before) + transfer_data_view(name@, *t));
}

/// The parameters for creating a payment intent.
#[derive(Clone, Debug, Default)]
pub struct PaymentIntentCreateParams {
    pub allowed_source_types: Vec<String>,
    pub amount: u64,
    pub currency: String,
    pub application_fee_amount: Option<u64>,
    pub capture_method: Option<CaptureMethod>,
    pub confirm: Option<bool>,
    pub customer: Option<String>,
    pub description: Option<String>,
    pub metadata: Option<Metadata>,
    pub on_behalf_of: Option<String>,
    pub receipt_email: Option<String>,
    pub return_url: Option<String>,
    pub save_source_to_customer: Option<bool>,
    pub source: Option<String>,
    pub statement_descriptor: Option<String>,
    pub transfer_data: Option<TransferData>,
    pub transfer_group: Option<String>,
}

impl PaymentIntentCreateParams {
    /// The fields that the parameters encode to, in order; unset ones are left out.
    pub open spec fn form_spec(&self) -> Seq<FieldView> {
        Seq::<FieldView>::empty() + list_view("allowed_source_types"@, self.allowed_source_types@)
            + plain_view("amount"@, decimal(self.amount as int))
            + plain_view("currency"@, self.currency@)
            + opt_view_field("application_fee_amount"@, opt_decimal_u64(self.application_fee_amount))
            + opt_view_field("capture_method"@, match self.capture_method {
            Some(v) => Some(v.wire()),
            None => None,
        })
            + opt_view_field("confirm"@, opt_bool_text(self.confirm))
            + opt_view_field("customer"@, opt_text(self.customer))
            + opt_view_field("description"@, opt_text(self.description))
            + opt_metadata_view("metadata"@, self.metadata)
            + opt_view_field("on_behalf_of"@, opt_text(self.on_behalf_of))
            + opt_view_field("receipt_email"@, opt_text(self.receipt_email))
            + opt_view_field("return_url"@, opt_text(self.return_url))
            + opt_view_field("save_source_to_customer"@, opt_bool_text(self.save_source_to_customer))
            + opt_view_field("source"@, opt_text(self.source))
            + opt_view_field("statement_descriptor"@, opt_text(self.statement_descriptor))
            + transfer_data_view("transfer_data"@, self.transfer_data)
            + opt_view_field("transfer_group"@, opt_text(self.transfer_group))
    }

    /// The parameters as form fields.
    pub fn to_form(&self) -> (r: Vec<FormField>)
        ensures
            fields_view(r@) == self.form_spec(),
    {
        let mut out: Vec<FormField> = Vec::new();
        assert(fields_view(out@) =~= Seq::<FieldView>::empty());
        push_list(&mut out, "allowed_source_types", &self.allowed_source_types);
        push_u64(&mut out, "amount", self.amount);
        push_plain(&mut out, "currency", self.currency.clone());
        push_opt_u64(&mut out, "application_fee_amount", self.application_fee_amount);
        match self.capture_method {
            Some(v) => push_plain(&mut out, "capture_method", String::from_str(v.as_str())),
            None => {},
        }
        push_opt_bool(&mut out, "confirm", self.confirm);
        push_opt_text(&mut out, "customer", &self.customer);
        push_opt_text(&mut out, "description", &self.description);
        push_opt_metadata(&mut out, "metadata", &self.metadata);
        push_opt_text(&mut out, "on_behalf_of", &self.on_behalf_of);
        push_opt_text(&mut out, "receipt_email", &self.receipt_email);
        push_opt_text(&mut out, "return_url", &self.return_url);
        push_opt_bool(&mut out, "save_source_to_customer", self.save_source_to_customer);
        push_opt_text(&mut out, "source", &self.source);
        push_opt_text(&mut out, "statement_descriptor", &self.statement_descriptor);
        push_transfer_data(&mut out, "transfer_data", &self.transfer_data);
        push_opt_text(&mut out, "transfer_group", &self.transfer_group);
        assert(fields_view(out@) =~= self.form_spec());
        out
    }
}

/// The parameters for updating a payment intent; unset ones stay as they are.
#[derive(Clone, Debug, Default)]
pub struct PaymentIntentUpdateParams {
    pub amount: Option<u64>,
    pub application_fee_amount: Option<u64>,
    pub currency: Option<String>,
    pub customer: Option<String>,
    pub description: Option<String>,
    pub metadata: Option<Metadata>,
    pub receipt_email: Option<String>,
    pub save_source_to_customer: Option<bool>,
    pub source: Option<String>,
    pub transfer_group: Option<String>,
}

impl PaymentIntentUpdateParams {
    /// The fields that the parameters encode to, in order; unset ones are left out.
    pub open spec fn form_spec(&self) -> Seq<FieldView> {
        Seq::<FieldView>::empty() + opt_view_field("amount"@, opt_decimal_u64(self.amount))
            + opt_view_field("application_fee_amount"@, opt_decimal_u64(self.application_fee_amount))
            + opt_view_field("currency"@, opt_text(self.currency))
            + opt_view_field("customer"@, opt_text(self.customer))
            + opt_view_field("description"@, opt_text(self.description))
            + opt_metadata_view("metadata"@, self.metadata)
            + opt_view_field("receipt_email"@, opt_text(self.receipt_email))
            + opt_view_field("save_source_to_customer"@, opt_bool_text(self.save_source_to_customer))
            + opt_view_field("source"@, opt_text(self.source))
            + opt_view_field("transfer_group"@, opt_text(self.transfer_group))
    }

    /// The parameters as form fields.
    pub fn to_form(&self) -> (r: Vec<FormField>)
        ensures
            fields_view(r@) == self.form_spec(),
    {
        let mut out: Vec<FormField> = Vec::new();
        assert(fields_view(out@) =~= Seq::<FieldView>::empty());
        push_opt_u64(&mut out, "amount", self.amount);
        push_opt_u64(&mut out, "application_fee_amount", self.application_fee_amount);
        push_opt_text(&mut out, "currency", &self.currency);
        push_opt_text(&mut out, "customer", &self.customer);
        push_opt_text(&mut out, "description", &self.description);
        push_opt_metadata(&mut out, "metadata", &self.metadata);
        push_opt_text(&mut out, "receipt_email", &self.receipt_email);
        push_opt_bool(&mut out, "save_source_to_customer", self.save_source_to_customer);
        push_opt_text(&mut out, "source", &self.source);
        push_opt_text(&mut out, "transfer_group", &self.transfer_group);
        assert(fields_view(out@) =~= self.form_spec());
        out
    }
}

/// The parameters for confirming a payment intent.
#[derive(Clone, Debug, Default)]
pub struct PaymentIntentConfirmParams {
    pub receipt_email: Option<String>,
    pub return_url: Option<String>,
    pub save_source_to_customer: Option<bool>,
    pub source: Option<String>,
}

impl PaymentIntentConfirmParams {
    /// The fields that the parameters encode to, in order; unset ones are left out.
    pub open spec fn form_spec(&self) -> Seq<FieldView> {
        Seq::<FieldView>::empty() + opt_view_field("receipt_email"@, opt_text(self.receipt_email))
            + opt_view_field("return_url"@, opt_text(self.return_url))
            + opt_view_field("save_source_to_customer"@, opt_bool_text(self.save_source_to_customer))
            + opt_view_field("source"@, opt_text(self.source))
    }

    /// The parameters as form fields.
    pub fn to_form(&self) -> (r: Vec<FormField>)
        ensures
            fields_view(r@) == self.form_spec(),
    {
        let mut out: Vec<FormField> = Vec::new();
        assert(fields_view(out@) =~= Seq::<FieldView>::empty());
        push_opt_text(&mut out, "receipt_email", &self.receipt_email);
        push_opt_text(&mut out, "return_url", &self.return_url);
        push_opt_bool(&mut out, "save_source_to_customer", self.save_source_to_customer);
        push_opt_text(&mut out, "source", &self.source);
        assert(fields_view(out@) =~= self.form_spec());
        out
    }
}

/// The parameters for capturing the funds of a payment intent.
#[derive(Clone, Debug, Default)]
pub struct PaymentIntentCaptureParams {
    pub amount_to_capture: Option<u64>,
    pub application_fee_amount: Option<u64>,
}

impl PaymentIntentCaptureParams {
    /// The fields that the parameters encode to, in order; unset ones are left out.
    pub open spec fn form_spec(&self) -> Seq<FieldView> {
        Seq::<FieldView>::empty() + opt_view_field("amount_to_capture"@, opt_decimal_u64(self.amount_to_capture))
            + opt_view_field("application_fee_amount"@, opt_decimal_u64(self.application_fee_amount))
    }

    /// The parameters as form fields.
    pub fn to_form(&self) -> (r: Vec<FormField>)
        ensures
            fields_view(r@) == self.form_spec(),
    {
        let mut out: Vec<FormField> = Vec::new();
        assert(fields_view(out@) =~= Seq::<FieldView>::empty());
        push_opt_u64(&mut out, "amount_to_capture", self.amount_to_capture);
        push_opt_u64(&mut out, "application_fee_amount", self.application_fee_amount);
        assert(fields_view(out@) =~= self.form_spec());
        out
    }
}

/// The parameters for canceling a payment intent.
#[derive(Clone, Debug, Default)]
pub struct PaymentIntentCancelParams {
    pub cancellation_reason: Option<CancellationReason>,
}

impl PaymentIntentCancelParams {
    /// The fields that the parameters encode to, in order; unset ones are left out.
    pub open spec fn form_spec(&self) -> Seq<FieldView> {
        Seq::<FieldView>::empty() + opt_view_field("cancellation_reason"@, match self.cancellation_reason {
            Some(v) => Some(v.wire()),
            None => None,
        })
    }

    /// The parameters as form fields.
    pub fn to_form(&self) -> (r: Vec<FormField>)
        ensures
            fields_view(r@) == self.form_spec(),
    {
        let mut out: Vec<FormField> = Vec::new();
        assert(fields_view(out@) =~= Seq::<FieldView>::empty());
        match self.cancellation_reason {
            Some(v) => push_plain(&mut out, "cancellation_reason", String::from_str(v.as_str())),
            None => {},
        }
        assert(fields_view(out@) =~= self.form_spec());
        out
    }
}

/// The parameters for listing payment intents.
#[derive(Clone, Debug, Default)]
pub struct PaymentIntentListParams {
    pub created: Option<RangeQuery>,
    pub ending_before: Option<String>,
    pub limit: Option<i64>,
    pub starting_after: Option<String>,
}

impl ListParams for PaymentIntentListParams {
    open spec fn form_spec(&self) -> Seq<FieldView> {
        Seq::<FieldView>::empty() + opt_range_view("created"@, self.created)
            + opt_view_field("ending_before"@, opt_text(self.ending_before))
            + opt_view_field("limit"@, opt_decimal_i64(self.limit))
            + opt_view_field("starting_after"@, opt_text(self.starting_after))
    }

    fn to_form(&self) -> (r: Vec<FormField>) {
        let mut out: Vec<FormField> = Vec::new();
        assert(fields_view(out@) =~= Seq::<FieldView>::empty());
        push_opt_range(&mut out, "created", &self.created);
        push_opt_text(&mut out, "ending_before", &self.ending_before);
        push_opt_i64(&mut out, "limit", self.limit);
        push_opt_text(&mut out, "starting_after", &self.starting_after);
        assert(fields_view(out@) =~= self.form_spec());
        out
    }
}

impl PaymentIntent {
    /// The request that creates a payment intent: a `POST` of the parameters to
    /// `/payment_intents`.
    pub fn create_request(params: &PaymentIntentCreateParams) -> (r: Request)
        ensures
            r.method == Method::Post,
            r.path@ == "/payment_intents"@,
            r.body matches Some(b) && b@ == form_text(params.form_spec()),
    {
        post_form(String::from_str("/payment_intents"), &params.to_form())
    }

    /// Creates a payment intent.
    pub fn create<C: Client>(client: &C, params: PaymentIntentCreateParams) -> (r: Result<
        PaymentIntent,
        Error,
    >)
        ensures
            send_outcome(r),
    {
        call(client, &PaymentIntent::create_request(&params))
    }

    /// The request that retrieves a payment intent: a `GET` of `/payment_intents/{id}`.
    pub fn retrieve_request(payment_intent_id: &str) -> (r: Request)
        ensures
            r.method == Method::Get,
            r.path@ == join("/payment_intents"@, payment_intent_id@),
            r.body is None,
    {
        get_path(join_path("/payment_intents", payment_intent_id))
    }

    /// Retrieves a payment intent by its identifier.
    pub fn retrieve<C: Client>(client: &C, payment_intent_id: &str) -> (r: Result<
        PaymentIntent,
        Error,
    >)
        ensures
            send_outcome(r),
    {
        call(client, &PaymentIntent::retrieve_request(payment_intent_id))
    }

    /// The request that updates a payment intent: a `POST` of the set parameters to
    /// `/payment_intents/{id}`.
    pub fn update_request(payment_intent_id: &str, params: &PaymentIntentUpdateParams) -> (r:
        Request)
        ensures
            r.method == Method::Post,
            r.path@ == join("/payment_intents"@, payment_intent_id@),
            r.body matches Some(b) && b@ == form_text(params.form_spec()),
    {
        post_form(join_path("/payment_intents", payment_intent_id), &params.to_form())
    }

    /// Updates a payment intent's properties.
    pub fn update<C: Client>(
        client: &C,
        payment_intent_id: &str,
        params: PaymentIntentUpdateParams,
    ) -> (r: Result<PaymentIntent, Error>)
        ensures
            send_outcome(r),
    {
        call(client, &PaymentIntent::update_request(payment_intent_id, &params))
    }

    /// The request that confirms a payment intent: a `POST` of the parameters to `/payment_intents/{id}/confirm`.
    pub fn confirm_request(payment_intent_id: &str, params: &PaymentIntentConfirmParams) -> (r: Request)
        ensures
            r.method == Method::Post,
            r.path@ == join(join("/payment_intents"@, payment_intent_id@), "confirm"@),
            r.body matches Some(b) && b@ == form_text(params.form_spec()),
    {
        let path = join_path(join_path("/payment_intents", payment_intent_id).as_str(), "confirm");
        post_form(path, &params.to_form())
    }

    /// Sends the request that confirms a payment intent and reads the payment intent that comes back.
    pub fn confirm<C: Client>(client: &C, payment_intent_id: &str, params: PaymentIntentConfirmParams) -> (r: Result<
        PaymentIntent,
        Error,
    >)
        ensures
            send_outcome(r),
    {
        call(client, &PaymentIntent::confirm_request(payment_intent_id, &params))
    }

    /// The request that captures the funds of a payment intent: a `POST` of the parameters to `/payment_intents/{id}/capture`.
    pub fn capture_request(payment_intent_id: &str, params: &PaymentIntentCaptureParams) -> (r: Request)
        ensures
            r.method == Method::Post,
            r.path@ == join(join("/payment_intents"@, payment_intent_id@), "capture"@),
            r.body matches Some(b) && b@ == form_text(params.form_spec()),
    {
        let path = join_path(join_path("/payment_intents", payment_intent_id).as_str(), "capture");
        post_form(path, &params.to_form())
    }

    /// Sends the request that captures the funds of a payment intent and reads the payment intent that comes back.
    pub fn capture<C: Client>(client: &C, payment_intent_id: &str, params: PaymentIntentCaptureParams) -> (r: Result<
        PaymentIntent,
        Error,
    >)
        ensures
            send_outcome(r),
    {
        call(client, &PaymentIntent::capture_request(payment_intent_id, &params))
    }

    /// The request that cancels a payment intent: a `POST` of the parameters to `/payment_intents/{id}/cancel`.
    pub fn cancel_request(payment_intent_id: &str, params: &PaymentIntentCancelParams) -> (r: Request)
        ensures
            r.method == Method::Post,
            r.path@ == join(join("/payment_intents"@, payment_intent_id@), "cancel"@),
            r.body matches Some(b) && b@ == form_text(params.form_spec()),
    {
        let path = join_path(join_path("/payment_intents", payment_intent_id).as_str(), "cancel");
        post_form(path, &params.to_form())
    }

    /// Sends the request that cancels a payment intent and reads the payment intent that comes back.
    pub fn cancel<C: Client>(client: &C, payment_intent_id: &str, params: PaymentIntentCancelParams) -> (r: Result<
        PaymentIntent,
        Error,
    >)
        ensures
            send_outcome(r),
    {
        call(client, &PaymentIntent::cancel_request(payment_intent_id, &params))
    }

    /// The request that lists payment intents: a `GET` of `/payment_intents` with the
    /// parameters as query string.
    pub fn list_request(params: &PaymentIntentListParams) -> (r: Request)
        ensures
            r.method == Method::Get,
            r.path@ == "/payment_intents"@ + seq!['?'] + form_text(params.form_spec()),
            r.body is None,
    {
        get_query("/payment_intents", &params.to_form())
    }

    /// Lists payment intents, one page.
    pub fn list<C: Client>(client: &C, params: PaymentIntentListParams) -> (r: Result<
        List<PaymentIntent>,
        Error,
    >)
        ensures
            send_outcome(r),
    {
        call(client, &PaymentIntent::list_request(&params))
    }
}

} // verus!
