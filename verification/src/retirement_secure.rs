//! Protected retirement data: what a profile or financial record must look
//! like before it is stored, and how records are sealed with AES-256-GCM
//! under the session key.
use crate::text::{chars_of, extend_str, string_of, trim, trim_chars};
use base64::Engine;
use zeroize::Zeroize;
use aes_gcm::aead::{Aead, KeyInit};
use vstd::prelude::*;

verus! {

pub const KEYRING_SERVICE: &'static str = "com.overlayforge.desktop.retirement";

pub const KEYRING_ACCOUNT: &'static str = "master-key-v1";

/// The record id under which the profile is stored.
pub const PROFILE_ID: &'static str = "profile-primary";

/// The version of the sealed payload format.
pub const PAYLOAD_VERSION: i64 = 1;

#[derive(Clone, Debug)]
pub struct ProtectedStoreStatus {
    pub state: String,
    pub message: String,
}

#[derive(Clone, Debug)]
pub struct RetirementProfile {
    pub display_label: String,
    pub age: Option<i64>,
    pub target_age: Option<i64>,
    pub retirement_definition: String,
    pub notes: String,
}

#[derive(Clone, Debug)]
pub struct RetirementFinancialRecord {
    pub id: String,
    pub entity_type: String,
    pub kind: String,
    pub label: String,
    pub institution: String,
    pub amount_cents: i64,
    pub as_of_date: String,
    pub interest_rate_basis_points: Option<i64>,
    pub minimum_payment_cents: Option<i64>,
    pub cadence: String,
    pub expected_change_date: String,
    pub expected_change_amount_cents: Option<i64>,
    pub notes: String,
    pub is_archived: bool,
    pub created_at: String,
    pub modified_at: String,
}

#[derive(Clone, Debug)]
pub struct RetirementProfileInput {
    pub display_label: String,
    pub age: Option<i64>,
    pub target_age: Option<i64>,
    pub retirement_definition: String,
    pub notes: String,
}

#[derive(Clone, Debug)]
pub struct RetirementFinancialRecordInput {
    pub id: Option<String>,
    pub entity_type: String,
    pub kind: String,
    pub label: String,
    pub institution: Option<String>,
    pub amount_cents: i64,
    pub as_of_date: String,
    pub interest_rate_basis_points: Option<i64>,
    pub minimum_payment_cents: Option<i64>,
    pub cadence: Option<String>,
    pub expected_change_date: Option<String>,
    pub expected_change_amount_cents: Option<i64>,
    pub notes: Option<String>,
}

/// A sealed record as the store keeps it.
#[derive(Clone, Debug)]
pub struct RetirementProtectedRecord {
    pub id: String,
    pub entity_type: String,
    pub payload_version: i64,
    pub nonce: Vec<u8>,
    pub ciphertext: Vec<u8>,
    pub is_archived: bool,
    pub created_at: String,
    pub modified_at: String,
}

pub const UNAVAILABLE: &'static str = "Protected retirement data is unavailable.";

pub const NOT_AUTHENTICATED: &'static str = "Protected retirement data could not be authenticated.";

pub const LOCKED: &'static str = "Retirement data is locked.";

// ------------------------------------------------------------ status

/// The status shown for a store in state `store_state`, given whether the
/// session holds the key.
pub fn store_status(store_state: &str, unlocked: bool) -> (r: ProtectedStoreStatus)
    ensures
        store_state@ == "uninitialized"@ ==> r.state@ == "uninitialized"@ && r.message@
            == "Enable protected retirement data to store planning information locally on this device."@,
        store_state@ != "uninitialized"@ && unlocked ==> r.state@ == "unlocked"@ && r.message@
            == "Protected retirement data is unlocked for this app session."@,
        store_state@ != "uninitialized"@ && !unlocked ==> r.state@ == "locked"@ && r.message@
            == "Unlock protected retirement data to view or edit it."@,
{
    let s = chars_of(store_state);
    if crate::text::chars_eq_str(&s, "uninitialized") {
        ProtectedStoreStatus {
            state: String::from_str("uninitialized"),
            message: String::from_str(
                "Enable protected retirement data to store planning information locally on this device.",
            ),
        }
    } else if unlocked {
        ProtectedStoreStatus {
            state: String::from_str("unlocked"),
            message: String::from_str("Protected retirement data is unlocked for this app session."),
        }
    } else {
        ProtectedStoreStatus {
            state: String::from_str("locked"),
            message: String::from_str("Unlock protected retirement data to view or edit it."),
        }
    }
}

// ------------------------------------------------------------ validation

pub open spec fn entity_type_ok(value: Seq<char>) -> bool {
    value == "account"@ || value == "debt"@ || value == "income"@
}

pub fn validate_entity_type(value: &str) -> (r: Result<(), String>)
    ensures
        match r {
            Ok(()) => entity_type_ok(value@),
            Err(e) => !entity_type_ok(value@) && e@ == "Unsupported protected retirement record type."@,
        },
{
    let v = chars_of(value);
    if crate::text::chars_eq_str(&v, "account") || crate::text::chars_eq_str(&v, "debt")
        || crate::text::chars_eq_str(&v, "income") {
        Ok(())
    } else {
        Err(String::from_str("Unsupported protected retirement record type."))
    }
}

/// The kinds a record of each type may have.
pub open spec fn kind_ok(entity_type: Seq<char>, kind: Seq<char>) -> bool {
    if entity_type == "account"@ {
        kind == "rrsp"@ || kind == "tfsa"@ || kind == "cash"@ || kind == "taxable_investment"@
            || kind == "other"@
    } else if entity_type == "debt"@ {
        kind == "mortgage"@ || kind == "line_of_credit"@ || kind == "credit_card"@ || kind
            == "vehicle_loan"@ || kind == "other"@
    } else {
        kind == "employment_salary"@ || kind == "employer_match"@ || kind
            == "personal_rrsp_contribution"@ || kind == "tfsa_contribution"@ || kind == "other"@
    }
}

pub fn validate_financial_kind(entity_type: &str, kind: &str) -> (r: Result<(), String>)
    ensures
        match r {
            Ok(()) => entity_type_ok(entity_type@) && kind_ok(entity_type@, kind@),
            Err(e) => if !entity_type_ok(entity_type@) {
                e@ == "Unsupported protected retirement record type."@
            } else {
                !kind_ok(entity_type@, kind@) && e@ == "Unsupported retirement record kind."@
            },
        },
{
    let t = chars_of(entity_type);
    let k = chars_of(kind);
    let allowed = if crate::text::chars_eq_str(&t, "account") {
        crate::text::chars_eq_str(&k, "rrsp") || crate::text::chars_eq_str(&k, "tfsa") || crate::text::chars_eq_str(&k, "cash") || crate::text::chars_eq_str(&k, "taxable_investment") || crate::text::chars_eq_str(
            &k,
            "other",
        )
    } else if crate::text::chars_eq_str(&t, "debt") {
        crate::text::chars_eq_str(&k, "mortgage") || crate::text::chars_eq_str(&k, "line_of_credit") || crate::text::chars_eq_str(&k, "credit_card") || crate::text::chars_eq_str(
            &k,
            "vehicle_loan",
        ) || crate::text::chars_eq_str(&k, "other")
    } else if crate::text::chars_eq_str(&t, "income") {
        crate::text::chars_eq_str(&k, "employment_salary") || crate::text::chars_eq_str(&k, "employer_match") || crate::text::chars_eq_str(
            &k,
            "personal_rrsp_contribution",
        ) || crate::text::chars_eq_str(&k, "tfsa_contribution") || crate::text::chars_eq_str(&k, "other")
    } else {
        return Err(String::from_str("Unsupported protected retirement record type."));
    };
    if allowed {
        Ok(())
    } else {
        Err(String::from_str("Unsupported retirement record kind."))
    }
}

pub open spec fn cadence_ok(value: Seq<char>) -> bool {
    value == "weekly"@ || value == "biweekly"@ || value == "monthly"@ || value == "annual"@
}

pub fn validate_cadence(value: &str) -> (r: Result<String, String>)
    ensures
        match r {
            Ok(s) => cadence_ok(value@) && s@ == value@,
            Err(e) => !cadence_ok(value@) && e@
                == "Cadence must be weekly, biweekly, monthly, or annual."@,
        },
{
    let v = chars_of(value);
    if crate::text::chars_eq_str(&v, "weekly") || crate::text::chars_eq_str(&v, "biweekly")
        || crate::text::chars_eq_str(&v, "monthly") || crate::text::chars_eq_str(&v, "annual") {
        Ok(String::from_str(value))
    } else {
        Err(String::from_str("Cadence must be weekly, biweekly, monthly, or annual."))
    }
}

/// The trimmed text, if it has at most `limit` characters.
pub open spec fn bounded(value: Seq<char>, limit: int, label: Seq<char>) -> Result<Seq<char>, Seq<char>> {
    if trim(value).len() > limit {
        Err(label + " is too long."@)
    } else {
        Ok(trim(value))
    }
}

pub fn bounded_text(value: &str, limit: usize, label: &str) -> (r: Result<String, String>)
    ensures
        match r {
            Ok(s) => bounded(value@, limit as int, label@) == Ok::<Seq<char>, Seq<char>>(s@),
            Err(e) => bounded(value@, limit as int, label@) == Err::<Seq<char>, Seq<char>>(e@),
        },
{
    let v = chars_of(value);
    let t = trim_chars(&v);
    if t.len() > limit {
        let mut e = chars_of(label);
        extend_str(&mut e, " is too long.");
        Err(string_of(&e))
    } else {
        Ok(string_of(&t))
    }
}

/// Bounded text that must also be non-empty once trimmed.
pub open spec fn required(value: Seq<char>, limit: int, label: Seq<char>) -> Result<Seq<char>, Seq<char>> {
    match bounded(value, limit, label) {
        Ok(t) => if t.len() == 0 {
            Err(label + " is required."@)
        } else {
            Ok(t)
        },
        Err(e) => Err(e),
    }
}

pub fn required_text(value: &str, limit: usize, label: &str) -> (r: Result<String, String>)
    ensures
        match r {
            Ok(s) => required(value@, limit as int, label@) == Ok::<Seq<char>, Seq<char>>(s@),
            Err(e) => required(value@, limit as int, label@) == Err::<Seq<char>, Seq<char>>(e@),
        },
{
    let t = match bounded_text(value, limit, label) {
        Ok(v) => v,
        Err(e) => return Err(e),
    };
    if t.as_str().is_empty() {
        let mut e = chars_of(label);
        extend_str(&mut e, " is required.");
        Err(string_of(&e))
    } else {
        Ok(t)
    }
}

pub fn non_negative_money(value: i64, label: &str) -> (r: Result<i64, String>)
    ensures
        match r {
            Ok(v) => value >= 0 && v == value,
            Err(e) => value < 0 && e@ == label@ + " cannot be negative."@,
        },
{
    if value < 0 {
        let mut e = chars_of(label);
        extend_str(&mut e, " cannot be negative.");
        Err(string_of(&e))
    } else {
        Ok(value)
    }
}

pub fn optional_non_negative(value: Option<i64>, label: &str) -> (r: Result<Option<i64>, String>)
    ensures
        match r {
            Ok(v) => v == value && (value matches Some(x) ==> x >= 0),
            Err(e) => value matches Some(x) && x < 0 && e@ == label@ + " cannot be negative."@,
        },
{
    match value {
        Some(item) => match non_negative_money(item, label) {
            Ok(v) => Ok(Some(v)),
            Err(e) => Err(e),
        },
        None => Ok(None),
    }
}

pub fn optional_age(value: Option<i64>) -> (r: Result<Option<i64>, String>)
    ensures
        match r {
            Ok(v) => v == value && (value matches Some(a) ==> 0 <= a <= 120),
            Err(e) => value matches Some(a) && !(0 <= a <= 120) && e@
                == "Age must be between 0 and 120."@,
        },
{
    match value {
        Some(age) => if age < 0 || age > 120 {
            Err(String::from_str("Age must be between 0 and 120."))
        } else {
            Ok(value)
        },
        None => Ok(value),
    }
}

/// `YYYY-MM-DD` by shape: ten characters, dashes at 4 and 7, ASCII digits
/// elsewhere. (Every other character being an ASCII digit, the character
/// and byte positions agree.)
pub open spec fn iso_date_shape(t: Seq<char>) -> bool {
    &&& t.len() == 10
    &&& t[4] == '-'
    &&& t[7] == '-'
    &&& forall|i: int| 0 <= i < 10 && i != 4 && i != 7 ==> '0' <= #[trigger] t[i] <= '9'
}

fn date_digits_ok(t: &Vec<char>) -> (r: bool)
    requires
        t@.len() == 10,
    ensures
        r == forall|i: int| 0 <= i < 10 && i != 4 && i != 7 ==> '0' <= #[trigger] t@[i] <= '9',
{
    let mut i: usize = 0;
    while i < 10
        invariant
            t@.len() == 10,
            i <= 10,
            forall|j: int| 0 <= j < i && j != 4 && j != 7 ==> '0' <= #[trigger] t@[j] <= '9',
        decreases 10 - i,
    {
        if i != 4 && i != 7 && !('0' <= t[i] && t[i] <= '9') {
            return false;
        }
        i = i + 1;
    }
    true
}

pub fn valid_iso_date(value: &str, label: &str) -> (r: Result<String, String>)
    ensures
        match r {
            Ok(s) => iso_date_shape(trim(value@)) && s@ == trim(value@),
            Err(e) => !iso_date_shape(trim(value@)) && e@ == label@ + " must use YYYY-MM-DD."@,
        },
{
    let v = chars_of(value);
    let t = trim_chars(&v);
    let ok = t.len() == 10 && t[4] == '-' && t[7] == '-' && date_digits_ok(&t);
    if ok {
        Ok(string_of(&t))
    } else {
        let mut e = chars_of(label);
        extend_str(&mut e, " must use YYYY-MM-DD.");
        Err(string_of(&e))
    }
}

pub fn optional_iso_date(value: &str, label: &str) -> (r: Result<String, String>)
    ensures
        match r {
            Ok(s) => if trim(value@).len() == 0 {
                s@ == Seq::<char>::empty()
            } else {
                iso_date_shape(trim(value@)) && s@ == trim(value@)
            },
            Err(e) => trim(value@).len() > 0 && !iso_date_shape(trim(value@)) && e@ == label@
                + " must use YYYY-MM-DD."@,
        },
{
    let v = chars_of(value);
    if trim_chars(&v).len() == 0 {
        Ok(String::new())
    } else {
        valid_iso_date(value, label)
    }
}

pub type ProfileView = (Seq<char>, Option<i64>, Option<i64>, Seq<char>, Seq<char>);

impl View for RetirementProfile {
    type V = ProfileView;

    open spec fn view(&self) -> ProfileView {
        (self.display_label@, self.age, self.target_age, self.retirement_definition@, self.notes@)
    }
}

pub open spec fn age_ok(age: Option<i64>) -> bool {
    match age {
        Some(a) => 0 <= a <= 120,
        None => true,
    }
}

pub open spec fn target_before_age(age: Option<i64>, target_age: Option<i64>) -> bool {
    match (age, target_age) {
        (Some(a), Some(t)) => t < a,
        _ => false,
    }
}

/// What saving a profile input gives: the first problem found, checking
/// label, age, target age, definition, notes and then the age order; or
/// the profile with its texts trimmed.
pub open spec fn profile_result(input: RetirementProfileInput) -> Result<ProfileView, Seq<char>> {
    match bounded(input.display_label@, 120, "Profile label"@) {
        Err(e) => Err(e),
        Ok(label) => if !age_ok(input.age) || !age_ok(input.target_age) {
            Err("Age must be between 0 and 120."@)
        } else {
            match bounded(input.retirement_definition@, 2000, "Retirement definition"@) {
                Err(e) => Err(e),
                Ok(definition) => match bounded(input.notes@, 8000, "Notes"@) {
                    Err(e) => Err(e),
                    Ok(notes) => if target_before_age(input.age, input.target_age) {
                        Err("Target age cannot be earlier than current age."@)
                    } else {
                        Ok((label, input.age, input.target_age, definition, notes))
                    },
                },
            }
        },
    }
}

/// The profile that an input describes.
pub fn validated_profile(input: &RetirementProfileInput) -> (r: Result<RetirementProfile, String>)
    ensures
        match r {
            Ok(p) => profile_result(*input) == Ok::<ProfileView, Seq<char>>(p@),
            Err(e) => profile_result(*input) == Err::<ProfileView, Seq<char>>(e@),
        },
{
    let display_label = match bounded_text(input.display_label.as_str(), 120, "Profile label") {
        Ok(v) => v,
        Err(e) => return Err(e),
    };
    let age = match optional_age(input.age) {
        Ok(v) => v,
        Err(e) => return Err(e),
    };
    let target_age = match optional_age(input.target_age) {
        Ok(v) => v,
        Err(e) => return Err(e),
    };
    let retirement_definition = match bounded_text(
        input.retirement_definition.as_str(),
        2000,
        "Retirement definition",
    ) {
        Ok(v) => v,
        Err(e) => return Err(e),
    };
    let notes = match bounded_text(input.notes.as_str(), 8000, "Notes") {
        Ok(v) => v,
        Err(e) => return Err(e),
    };
    match age {
        Some(a) => match target_age {
            Some(t) => if t < a {
                return Err(String::from_str("Target age cannot be earlier than current age."));
            },
            None => {},
        },
        None => {},
    }
    Ok(RetirementProfile { display_label, age, target_age, retirement_definition, notes })
}

/// The caller's record id, if it gave a non-blank one.
pub fn provided_record_id(id: &Option<String>) -> (r: Option<String>)
    ensures
        match id {
            Some(s) => if trim(s@).len() > 0 {
                r matches Some(x) && x@ == s@
            } else {
                r is None
            },
            None => r is None,
        },
{
    match id {
        Some(s) => {
            let v = chars_of(s.as_str());
            if trim_chars(&v).len() > 0 {
                Some(string_of(&v))
            } else {
                None
            }
        },
        None => None,
    }
}

/// The text of an optional field, or nothing.
pub open spec fn or_empty(value: Option<String>) -> Seq<char> {
    match value {
        Some(s) => s@,
        None => seq![],
    }
}

fn optional_chars(value: &Option<String>) -> (r: String)
    ensures
        r@ == or_empty(*value),
{
    match value {
        Some(s) => string_of(&chars_of(s.as_str())),
        None => String::new(),
    }
}

/// A financial record as plain values.
pub struct FinancialRecordModel {
    pub id: Seq<char>,
    pub entity_type: Seq<char>,
    pub kind: Seq<char>,
    pub label: Seq<char>,
    pub institution: Seq<char>,
    pub amount_cents: i64,
    pub as_of_date: Seq<char>,
    pub interest_rate_basis_points: Option<i64>,
    pub minimum_payment_cents: Option<i64>,
    pub cadence: Seq<char>,
    pub expected_change_date: Seq<char>,
    pub expected_change_amount_cents: Option<i64>,
    pub notes: Seq<char>,
    pub is_archived: bool,
    pub created_at: Seq<char>,
    pub modified_at: Seq<char>,
}

impl View for RetirementFinancialRecord {
    type V = FinancialRecordModel;

    open spec fn view(&self) -> FinancialRecordModel {
        FinancialRecordModel {
            id: self.id@,
            entity_type: self.entity_type@,
            kind: self.kind@,
            label: self.label@,
            institution: self.institution@,
            amount_cents: self.amount_cents,
            as_of_date: self.as_of_date@,
            interest_rate_basis_points: self.interest_rate_basis_points,
            minimum_payment_cents: self.minimum_payment_cents,
            cadence: self.cadence@,
            expected_change_date: self.expected_change_date@,
            expected_change_amount_cents: self.expected_change_amount_cents,
            notes: self.notes@,
            is_archived: self.is_archived,
            created_at: self.created_at@,
            modified_at: self.modified_at@,
        }
    }
}

pub open spec fn money_ok(value: Option<i64>) -> bool {
    match value {
        Some(x) => x >= 0,
        None => true,
    }
}

pub open spec fn negative_message(label: Seq<char>) -> Seq<char> {
    label + " cannot be negative."@
}

pub open spec fn date_message(label: Seq<char>) -> Seq<char> {
    label + " must use YYYY-MM-DD."@
}

pub open spec fn cadence_text(cadence: Option<String>) -> Seq<char> {
    match cadence {
        Some(c) => c@,
        None => "monthly"@,
    }
}

pub open spec fn optional_date_ok(value: Seq<char>) -> bool {
    trim(value).len() == 0 || iso_date_shape(trim(value))
}

pub open spec fn optional_date_value(value: Seq<char>) -> Seq<char> {
    if trim(value).len() == 0 {
        seq![]
    } else {
        trim(value)
    }
}

/// The fields after type and kind, checked in the original order.
pub open spec fn record_fields_result(input: RetirementFinancialRecordInput, id: Seq<char>) -> Result<
    FinancialRecordModel,
    Seq<char>,
> {
    match required(input.label@, 160, "Label"@) {
        Err(e) => Err(e),
        Ok(label) => match bounded(or_empty(input.institution), 160, "Institution"@) {
            Err(e) => Err(e),
            Ok(institution) => if input.amount_cents < 0 {
                Err(negative_message("Amount"@))
            } else if !iso_date_shape(trim(input.as_of_date@)) {
                Err(date_message("As-of date"@))
            } else if !money_ok(input.interest_rate_basis_points) {
                Err(negative_message("Interest rate"@))
            } else if !money_ok(input.minimum_payment_cents) {
                Err(negative_message("Minimum payment"@))
            } else if !cadence_ok(cadence_text(input.cadence)) {
                Err("Cadence must be weekly, biweekly, monthly, or annual."@)
            } else if !optional_date_ok(or_empty(input.expected_change_date)) {
                Err(date_message("Expected change date"@))
            } else if !money_ok(input.expected_change_amount_cents) {
                Err(negative_message("Expected change amount"@))
            } else {
                match bounded(or_empty(input.notes), 8000, "Notes"@) {
                    Err(e) => Err(e),
                    Ok(notes) => Ok(
                        FinancialRecordModel {
                            id,
                            entity_type: input.entity_type@,
                            kind: input.kind@,
                            label,
                            institution,
                            amount_cents: input.amount_cents,
                            as_of_date: trim(input.as_of_date@),
                            interest_rate_basis_points: input.interest_rate_basis_points,
                            minimum_payment_cents: input.minimum_payment_cents,
                            cadence: cadence_text(input.cadence),
                            expected_change_date: optional_date_value(
                                or_empty(input.expected_change_date),
                            ),
                            expected_change_amount_cents: input.expected_change_amount_cents,
                            notes,
                            is_archived: false,
                            created_at: seq![],
                            modified_at: seq![],
                        },
                    ),
                }
            },
        },
    }
}

/// What saving a financial record input under `id` gives: the record type
/// and kind are checked first, then each field in turn.
pub open spec fn record_result(input: RetirementFinancialRecordInput, id: Seq<char>) -> Result<
    FinancialRecordModel,
    Seq<char>,
> {
    if !entity_type_ok(input.entity_type@) {
        Err("Unsupported protected retirement record type."@)
    } else if !kind_ok(input.entity_type@, input.kind@) {
        Err("Unsupported retirement record kind."@)
    } else {
        record_fields_result(input, id)
    }
}

/// The financial record that an input describes under the id `id`.
pub fn validated_financial_record(input: &RetirementFinancialRecordInput, id: String) -> (r: Result<
    RetirementFinancialRecord,
    String,
>)
    ensures
        match r {
            Ok(rec) => record_result(*input, id@) == Ok::<FinancialRecordModel, Seq<char>>(rec@),
            Err(e) => record_result(*input, id@) == Err::<FinancialRecordModel, Seq<char>>(e@),
        },
{
    match validate_entity_type(input.entity_type.as_str()) {

        Ok(_) => {},

        Err(e) => return Err(e),

    }
    match validate_financial_kind(input.entity_type.as_str(), input.kind.as_str()) {

        Ok(_) => {},

        Err(e) => return Err(e),

    }
    let label = match required_text(input.label.as_str(), 160, "Label") {
        Ok(v) => v,
        Err(e) => return Err(e),
    };
    let institution_text = optional_chars(&input.institution);
    let institution = match bounded_text(institution_text.as_str(), 160, "Institution") {
        Ok(v) => v,
        Err(e) => return Err(e),
    };
    let amount_cents = match non_negative_money(input.amount_cents, "Amount") {
        Ok(v) => v,
        Err(e) => return Err(e),
    };
    let as_of_date = match valid_iso_date(input.as_of_date.as_str(), "As-of date") {
        Ok(v) => v,
        Err(e) => return Err(e),
    };
    let interest_rate_basis_points = match optional_non_negative(
        input.interest_rate_basis_points,
        "Interest rate",
    ) {
        Ok(v) => v,
        Err(e) => return Err(e),
    };
    let minimum_payment_cents = match optional_non_negative(input.minimum_payment_cents, "Minimum payment") {
        Ok(v) => v,
        Err(e) => return Err(e),
    };
    let cadence_text = match &input.cadence {
        Some(c) => string_of(&chars_of(c.as_str())),
        None => String::from_str("monthly"),
    };
    let cadence = match validate_cadence(cadence_text.as_str()) {
        Ok(v) => v,
        Err(e) => return Err(e),
    };
    let change_text = optional_chars(&input.expected_change_date);
    let expected_change_date = match optional_iso_date(change_text.as_str(), "Expected change date") {
        Ok(v) => v,
        Err(e) => return Err(e),
    };
    let expected_change_amount_cents = match optional_non_negative(
        input.expected_change_amount_cents,
        "Expected change amount",
    ) {
        Ok(v) => v,
        Err(e) => return Err(e),
    };
    let notes_text = optional_chars(&input.notes);
    let notes = match bounded_text(notes_text.as_str(), 8000, "Notes") {
        Ok(v) => v,
        Err(e) => return Err(e),
    };
    Ok(
        RetirementFinancialRecord {
            id,
            entity_type: string_of(&chars_of(input.entity_type.as_str())),
            kind: string_of(&chars_of(input.kind.as_str())),
            label,
            institution,
            amount_cents,
            as_of_date,
            interest_rate_basis_points,
            minimum_payment_cents,
            cadence,
            expected_change_date,
            expected_change_amount_cents,
            notes,
            is_archived: false,
            created_at: String::new(),
            modified_at: String::new(),
        },
    )
}

// ------------------------------------------------------------ sealing

/// The associated data that binds a sealed payload to its record.
pub open spec fn aad_text(entity_type: Seq<char>, id: Seq<char>) -> Seq<char> {
    "overlay-forge:retirement:v1:"@ + entity_type + ":"@ + id
}

pub fn aad(entity_type: &str, id: &str) -> (r: String)
    ensures
        r@ == aad_text(entity_type@, id@),
{
    let mut v = chars_of("overlay-forge:retirement:v1:");
    extend_str(&mut v, entity_type);
    extend_str(&mut v, ":");
    extend_str(&mut v, id);
    string_of(&v)
}

/// The ciphertext (with tag) that AES-256-GCM gives for `msg` under `key`,
/// `nonce` and the UTF-8 bytes of `aad`.
pub uninterp spec fn aes256gcm_sealed(key: Seq<u8>, nonce: Seq<u8>, aad: Seq<char>, msg: Seq<u8>) -> Seq<u8>;

/// `Aes256Gcm::encrypt` from aes-gcm, keyed from a 32-byte slice with
/// `KeyInit::new_from_slice`. A successful result is the sealed payload
/// named by `aes256gcm_sealed`; when encryption fails (a payload beyond the
/// crate's length limits) nothing is stated.
#[verifier::external_body]
fn aes256gcm_encrypt(key: &Vec<u8>, nonce: &Vec<u8>, aad: &str, msg: &Vec<u8>) -> (r: Option<Vec<u8>>)
    requires
        key@.len() == 32,
        nonce@.len() == 12,
    ensures
        r matches Some(c) ==> c@ == aes256gcm_sealed(key@, nonce@, aad@, msg@),
{
    let cipher = aes_gcm::Aes256Gcm::new_from_slice(key.as_slice()).ok()?;
    let n = aes_gcm::Nonce::<aes_gcm::aead::consts::U12>::from_slice(nonce.as_slice());
    cipher.encrypt(n, aes_gcm::aead::Payload { msg: msg.as_slice(), aad: aad.as_bytes() }).ok()
}

/// `Aes256Gcm::decrypt` from aes-gcm. What it returns for a payload that
/// this key, nonce and associated data sealed is that payload's plaintext;
/// of any other input only that it is some outcome (authentication failure
/// is not stated, since it holds only with overwhelming probability).
#[verifier::external_body]
fn aes256gcm_decrypt(key: &Vec<u8>, nonce: &Vec<u8>, aad: &str, ciphertext: &Vec<u8>) -> (r: Option<
    Vec<u8>,
>)
    requires
        key@.len() == 32,
        nonce@.len() == 12,
    ensures
        match r {
            Some(p) => forall|m: Seq<u8>|
                #![trigger aes256gcm_sealed(key@, nonce@, aad@, m)]
                ciphertext@ == aes256gcm_sealed(key@, nonce@, aad@, m) ==> p@ == m,
            None => forall|m: Seq<u8>|
                #![trigger aes256gcm_sealed(key@, nonce@, aad@, m)]
                ciphertext@ != aes256gcm_sealed(key@, nonce@, aad@, m),
        },
{
    let cipher = aes_gcm::Aes256Gcm::new_from_slice(key.as_slice()).ok()?;
    let n = aes_gcm::Nonce::<aes_gcm::aead::consts::U12>::from_slice(nonce.as_slice());
    cipher.decrypt(n, aes_gcm::aead::Payload { msg: ciphertext.as_slice(), aad: aad.as_bytes() }).ok()
}

/// `getrandom::fill` on a 12-byte buffer: twelve random bytes, or nothing
/// when the system source fails.
#[verifier::external_body]
fn random_nonce() -> (r: Option<Vec<u8>>)
    ensures
        r matches Some(n) ==> n@.len() == 12,
{
    let mut nonce = [0u8; 12];
    getrandom::fill(&mut nonce).ok()?;
    Some(nonce.to_vec())
}

/// `Zeroize::zeroize` on a byte vector: the bytes are overwritten and the
/// vector is left empty.
#[verifier::external_body]
fn wipe(bytes: &mut Vec<u8>)
    ensures
        final(bytes)@.len() == 0,
{
    bytes.zeroize();
}

/// Seals a serialised record for storage under the session key: a fresh
/// random nonce, the record's associated data, AES-256-GCM. The plaintext
/// is wiped afterwards. Without a key the data is locked.
pub fn seal_payload(key: Option<&Vec<u8>>, id: &str, entity_type: &str, plaintext: Vec<u8>) -> (r:
    Result<(Vec<u8>, Vec<u8>), String>)
    requires
        key matches Some(k) ==> k@.len() == 32,
    ensures
        key is None ==> (r matches Err(e) && e@ == LOCKED@),
        r matches Ok((nonce, ciphertext)) ==> key matches Some(k) && nonce@.len() == 12
            && ciphertext@ == aes256gcm_sealed(k@, nonce@, aad_text(entity_type@, id@), plaintext@),
        r matches Err(e) ==> e@ == LOCKED@ || e@ == UNAVAILABLE@ || e@ == NOT_AUTHENTICATED@,
{
    let mut plaintext = plaintext;
    let k = match key {
        Some(k) => k,
        None => return Err(String::from_str(LOCKED)),
    };
    let nonce = match random_nonce() {
        Some(n) => n,
        None => return Err(String::from_str(UNAVAILABLE)),
    };
    let associated_data = aad(entity_type, id);
    let ghost sealed_input = plaintext@;
    let ciphertext = match aes256gcm_encrypt(k, &nonce, associated_data.as_str(), &plaintext) {
        Some(c) => c,
        None => return Err(String::from_str(NOT_AUTHENTICATED)),
    };
    wipe(&mut plaintext);
    Ok((nonce, ciphertext))
}

/// Opens a stored record's payload under the session key. A payload of
/// another format version, or a nonce that is not twelve bytes, cannot be
/// authenticated; without a key the data is locked. A payload that this key
/// sealed for this record opens to what was sealed.
pub fn open_payload(key: Option<&Vec<u8>>, record: &RetirementProtectedRecord) -> (r: Result<
    Vec<u8>,
    String,
>)
    requires
        key matches Some(k) ==> k@.len() == 32,
    ensures
        record.payload_version != PAYLOAD_VERSION ==> (r matches Err(e) && e@ == NOT_AUTHENTICATED@),
        record.payload_version == PAYLOAD_VERSION && key is None ==> (r matches Err(e) && e@
            == LOCKED@),
        record.payload_version == PAYLOAD_VERSION && key is Some && record.nonce@.len() != 12
            ==> (r matches Err(e) && e@ == NOT_AUTHENTICATED@),
        forall|m: Seq<u8>|
            #![trigger aes256gcm_sealed(key->0@, record.nonce@, aad_text(record.entity_type@, record.id@), m)]
            record.payload_version == PAYLOAD_VERSION && key is Some && record.nonce@.len() == 12
                && record.ciphertext@ == aes256gcm_sealed(
                key->0@,
                record.nonce@,
                aad_text(record.entity_type@, record.id@),
                m,
            ) ==> (r matches Ok(p) && p@ == m),
        r matches Err(e) ==> e@ == LOCKED@ || e@ == NOT_AUTHENTICATED@,
{
    if record.payload_version != PAYLOAD_VERSION {
        return Err(String::from_str(NOT_AUTHENTICATED));
    }
    let k = match key {
        Some(k) => k,
        None => return Err(String::from_str(LOCKED)),
    };
    if record.nonce.len() != 12 {
        return Err(String::from_str(NOT_AUTHENTICATED));
    }
    let associated_data = aad(record.entity_type.as_str(), record.id.as_str());
    match aes256gcm_decrypt(k, &record.nonce, associated_data.as_str(), &record.ciphertext) {
        Some(p) => Ok(p),
        None => Err(String::from_str(NOT_AUTHENTICATED)),
    }
}

/// The character of a six-bit value in the standard base64 alphabet:
/// `A`-`Z`, `a`-`z`, `0`-`9`, `+`, `/`.
pub open spec fn base64_digit(n: int) -> char {
    if n < 26 {
        (65 + n) as char
    } else if n < 52 {
        (97 + n - 26) as char
    } else if n < 62 {
        (48 + n - 52) as char
    } else if n == 62 {
        '+'
    } else {
        '/'
    }
}

/// The standard, padded base64 text of a byte sequence: each three bytes
/// become four characters of six bits each; a last group of one or two
/// bytes is filled with zero bits and padded with `=` to four characters.
#[verifier::opaque]
pub open spec fn standard_base64(bytes: Seq<u8>) -> Seq<char>
    decreases bytes.len(),
{
    if bytes.len() == 0 {
        seq![]
    } else if bytes.len() == 1 {
        let a = bytes[0] as int;
        seq![base64_digit(a / 4), base64_digit((a % 4) * 16), '=', '=']
    } else if bytes.len() == 2 {
        let a = bytes[0] as int;
        let b = bytes[1] as int;
        seq![base64_digit(a / 4), base64_digit((a % 4) * 16 + b / 16), base64_digit((b % 16) * 4), '=']
    } else {
        let a = bytes[0] as int;
        let b = bytes[1] as int;
        let c = bytes[2] as int;
        seq![
            base64_digit(a / 4),
            base64_digit((a % 4) * 16 + b / 16),
            base64_digit((b % 16) * 4 + c / 64),
            base64_digit(c % 64),
        ] + standard_base64(bytes.skip(3))
    }
}

/// `Engine::encode` of base64's `STANDARD` engine.
#[verifier::external_body]
fn base64_encode(bytes: &Vec<u8>) -> (r: String)
    ensures
        r@ == standard_base64(bytes@),
{
    base64::engine::general_purpose::STANDARD.encode(bytes)
}

/// `Engine::decode` of base64's `STANDARD` engine, which requires
/// canonical padding and no trailing bits: it gives back the bytes whose
/// encoding the text is, and succeeds on nothing else.
#[verifier::external_body]
fn base64_decode(text: &str) -> (r: Option<Vec<u8>>)
    ensures
        match r {
            Some(x) => standard_base64(x@) == text@ && forall|b: Seq<u8>|
                #![trigger standard_base64(b)]
                standard_base64(b) == text@ ==> x@ == b,
            None => forall|b: Seq<u8>| #![trigger standard_base64(b)] standard_base64(b) != text@,
        },
{
    base64::engine::general_purpose::STANDARD.decode(text).ok()
}

/// The text under which a session key is kept in secure storage.
pub fn stored_key_text(key: &Vec<u8>) -> (r: String)
    ensures
        r@ == standard_base64(key@),
{
    base64_encode(key)
}

/// The session key that a stored text holds: its base64 decoding, which
/// must be 32 bytes long.
pub fn session_key_from_stored(text: &str) -> (r: Result<Vec<u8>, String>)
    ensures
        r matches Ok(k) ==> k@.len() == 32 && standard_base64(k@) == text@,
        r matches Err(e) ==> e@ == NOT_AUTHENTICATED@,
        forall|k: Seq<u8>|
            #![trigger standard_base64(k)]
            k.len() == 32 && standard_base64(k) == text@ ==> (r matches Ok(x) && x@ == k),
{
    match base64_decode(text) {
        Some(bytes) => if bytes.len() == 32 {
            Ok(bytes)
        } else {
            Err(String::from_str(NOT_AUTHENTICATED))
        },
        None => Err(String::from_str(NOT_AUTHENTICATED)),
    }
}

} // verus!
