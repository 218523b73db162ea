//! The gateway's handlers: each checks access through the authorization layer, does its
//! work, and hands back the audit line that the caller publishes on the hub.
use vstd::prelude::*;
use vstd::string::StringExecFns;
use crate::auth::{
    check_access, credential_expiry, expiry_spec, find_role, name_of_role, opt_view, permits,
    role_name, store_role, validation_of, AuthConfig, AuthError, Operation, Principal,
};
use crate::trusted::{hs256_claims, hs256_token, sign_token};

verus! {

/// An inventory update as submitted.
pub struct InventoryItem {
    pub product_id: String,
    pub quantity: u32,
    pub location: String,
}

/// One row of the inventory view.
pub struct InventoryRecord {
    pub id: String,
    pub product_id: String,
    pub quantity: u32,
    pub location: String,
    pub low_stock: bool,
}

/// A forecast request as submitted.
pub struct PredictionRequest {
    pub product_id: String,
    pub store_id: String,
}

/// A freshly issued credential and the audit line of the login. `token` is
/// `None` when the clock gave no valid expiry.
pub struct Issued {
    pub token: Option<String>,
    pub audit: String,
}

/// A reply with a status code and a plain-text body.
pub struct Reply {
    pub status: u16,
    pub body: String,
}

/// How a call to the forecasting service failed.
pub enum ForecastFailure {
    /// A success status with a body that did not decode; the decoder's words.
    Unreadable(String),
    /// A non-success status and the body that came with it.
    Rejected(u16, String),
    /// No response at all; the transport's words.
    Unreachable(String),
}

/// The character of decimal digit `d`.
pub open spec fn digit_char(d: nat) -> char {
    seq!['0', '1', '2', '3', '4', '5', '6', '7', '8', '9'][d as int]
}

/// The decimal numeral of `n`, without leading zeros.
pub open spec fn decimal(n: nat) -> Seq<char>
    decreases n,
{
    if n < 10 {
        seq![digit_char(n)]
    } else {
        decimal(n / 10).push(digit_char(n % 10))
    }
}

/// The audit line of a login.
pub open spec fn login_line(user: Seq<char>, role: Seq<char>) -> Seq<char> {
    "AUTH: User '"@ + user + "' logged in with role '"@ + role + "'"@
}

/// The audit line of an inventory update.
pub open spec fn inventory_line(sub: Seq<char>, product: Seq<char>, location: Seq<char>, quantity: u32) -> Seq<char> {
    "INVENTORY: '"@ + sub + "' updated product '"@ + product + "' in '"@ + location
        + "' to quantity "@ + decimal(quantity as nat)
}

/// The audit line of a forecast request.
pub open spec fn forecast_line(sub: Seq<char>, product: Seq<char>, store: Seq<char>) -> Seq<char> {
    "FORECAST: '"@ + sub + "' requested forecast for product '"@ + product + "' in store '"@
        + store + "'"@
}

/// The one-character numeral of digit `d`.
fn digit_text(d: u32) -> (s: &'static str)
    requires
        d < 10,
    ensures
        s@ == seq![digit_char(d as nat)],
{
    let s = match d {
        0 => "0",
        1 => "1",
        2 => "2",
        3 => "3",
        4 => "4",
        5 => "5",
        6 => "6",
        7 => "7",
        8 => "8",
        _ => "9",
    };
    proof {
        reveal_strlit("0");
        reveal_strlit("1");
        reveal_strlit("2");
        reveal_strlit("3");
        reveal_strlit("4");
        reveal_strlit("5");
        reveal_strlit("6");
        reveal_strlit("7");
        reveal_strlit("8");
        reveal_strlit("9");
        assert(s@ =~= seq![digit_char(d as nat)]);
    }
    s
}

/// The decimal numeral of `n`.
pub fn decimal_text(n: u32) -> (s: String)
    ensures
        s@ == decimal(n as nat),
    decreases n,
{
    if n < 10 {
        String::from_str(digit_text(n))
    } else {
        let mut s = decimal_text(n / 10);
        s.append(digit_text(n % 10));
        s
    }
}

/// Issues a credential to the account that holds `user` and `pass`, valid
/// for sixty minutes after `now`. A pair that no account holds is refused
/// as `Unauthorized`, whichever of the two was wrong.
pub fn issue_credential(cfg: &AuthConfig, user: &str, pass: &str, now: i64) -> (r: Result<Issued, AuthError>)
    ensures
        match store_role(cfg.accounts@, user@, pass@) {
            None => r == Err::<Issued, AuthError>(AuthError::Unauthorized),
            Some(role) => r matches Ok(i) && i.audit@ == login_line(user@, role_name(role)) && (
            expiry_spec(now) is None <==> i.token is None) && (i.token matches Some(t) ==> (
            expiry_spec(now) matches Some(e) && t@ == hs256_token(user@, role_name(role), e, cfg.secret@)
                && hs256_claims(t@, cfg.secret@) == Some((user@, role_name(role), e)))),
        },
{
    let role = match find_role(&cfg.accounts, user, pass) {
        None => return Err(AuthError::Unauthorized),
        Some(role) => role,
    };
    let name = name_of_role(role);
    let mut audit = String::from_str("AUTH: User '");
    audit.append(user);
    audit.append("' logged in with role '");
    audit.append(name);
    audit.append("'");
    let token = match credential_expiry(now) {
        None => None,
        Some(exp) => sign_token(user, name, exp, cfg.secret.as_slice()),
    };
    Ok(Issued { token, audit })
}

/// Accepts an inventory update from an admin and returns its audit line.
pub fn inventory_write(cfg: &AuthConfig, header: Option<&str>, now: i64, item: &InventoryItem) -> (r: Result<String, AuthError>)
    ensures
        match validation_of(opt_view(header), cfg.secret@, now) {
            None => r == Err::<String, AuthError>(AuthError::Unauthorized),
            Some(v) => if permits(v.1, Operation::InventoryWrite) {
                r matches Ok(line) && line@ == inventory_line(v.0, item.product_id@, item.location@, item.quantity)
            } else {
                r == Err::<String, AuthError>(AuthError::Forbidden)
            },
        },
{
    let p = check_access(cfg, header, now, Operation::InventoryWrite)?;
    let mut line = String::from_str("INVENTORY: '");
    line.append(p.subject.as_str());
    line.append("' updated product '");
    line.append(item.product_id.as_str());
    line.append("' in '");
    line.append(item.location.as_str());
    line.append("' to quantity ");
    let q = decimal_text(item.quantity);
    line.append(q.as_str());
    Ok(line)
}

/// Whether `r` is the inventory row `(id, quantity, location, low_stock)`,
/// its product being its id.
pub open spec fn row_is(r: InventoryRecord, id: Seq<char>, quantity: u32, location: Seq<char>, low_stock: bool) -> bool {
    r.id@ == id && r.product_id@ == id && r.quantity == quantity && r.location@ == location
        && r.low_stock == low_stock
}

/// The rows of the demonstration inventory.
pub open spec fn demo_rows(v: Seq<InventoryRecord>) -> bool {
    &&& v.len() == 4
    &&& row_is(v[0], "P101"@, 50, "Delhi"@, false)
    &&& row_is(v[1], "P102"@, 100, "Mumbai"@, false)
    &&& row_is(v[2], "P103"@, 15, "Delhi"@, true)
    &&& row_is(v[3], "P104"@, 200, "Bangalore"@, false)
}

fn demo_row(id: &str, quantity: u32, location: &str, low_stock: bool) -> (r: InventoryRecord)
    ensures
        row_is(r, id@, quantity, location@, low_stock),
{
    InventoryRecord {
        id: String::from_str(id),
        product_id: String::from_str(id),
        quantity,
        location: String::from_str(location),
        low_stock,
    }
}

/// The demonstration inventory.
pub fn demo_inventory() -> (v: Vec<InventoryRecord>)
    ensures
        demo_rows(v@),
{
    let mut v: Vec<InventoryRecord> = Vec::new();
    v.push(demo_row("P101", 50, "Delhi", false));
    v.push(demo_row("P102", 100, "Mumbai", false));
    v.push(demo_row("P103", 15, "Delhi", true));
    v.push(demo_row("P104", 200, "Bangalore", false));
    v
}

/// The inventory view, for admins and viewers.
pub fn inventory_read(cfg: &AuthConfig, header: Option<&str>, now: i64) -> (r: Result<Vec<InventoryRecord>, AuthError>)
    ensures
        match validation_of(opt_view(header), cfg.secret@, now) {
            None => r == Err::<Vec<InventoryRecord>, AuthError>(AuthError::Unauthorized),
            Some(v) => if permits(v.1, Operation::InventoryRead) {
                r matches Ok(rows) && demo_rows(rows@)
            } else {
                r == Err::<Vec<InventoryRecord>, AuthError>(AuthError::Forbidden)
            },
        },
{
    let _p: Principal = check_access(cfg, header, now, Operation::InventoryRead)?;
    Ok(demo_inventory())
}

/// Admits a forecast request from an admin and returns its audit line; the
/// caller then forwards the request to the forecasting service.
pub fn forecast_request(cfg: &AuthConfig, header: Option<&str>, now: i64, req: &PredictionRequest) -> (r: Result<String, AuthError>)
    ensures
        match validation_of(opt_view(header), cfg.secret@, now) {
            None => r == Err::<String, AuthError>(AuthError::Unauthorized),
            Some(v) => if permits(v.1, Operation::ForecastRequest) {
                r matches Ok(line) && line@ == forecast_line(v.0, req.product_id@, req.store_id@)
            } else {
                r == Err::<String, AuthError>(AuthError::Forbidden)
            },
        },
{
    let p = check_access(cfg, header, now, Operation::ForecastRequest)?;
    let mut line = String::from_str("FORECAST: '");
    line.append(p.subject.as_str());
    line.append("' requested forecast for product '");
    line.append(req.product_id.as_str());
    line.append("' in store '");
    line.append(req.store_id.as_str());
    line.append("'");
    Ok(line)
}

/// The server-error status that answers a rejected upstream call: the
/// upstream status itself when it is a server error, else 500.
pub open spec fn relayed_status(status: u16) -> u16 {
    if 500 <= status <= 599 {
        status
    } else {
        500
    }
}

/// The reply owed for a failed forecast call: always a server error, with a
/// body that says what failed and carries the upstream's words.
pub fn forecast_failure_reply(failure: ForecastFailure) -> (r: Reply)
    ensures
        500 <= r.status <= 599,
        match failure {
            ForecastFailure::Unreadable(e) => r.status == 500
                && r.body@ == "Failed to parse response: "@ + e@,
            ForecastFailure::Rejected(s, body) => r.status == relayed_status(s)
                && r.body@ == "Model service error: "@ + body@,
            ForecastFailure::Unreachable(e) => r.status == 500
                && r.body@ == "Failed to reach AI model: "@ + e@,
        },
{
    match failure {
        ForecastFailure::Unreadable(e) => {
            let mut body = String::from_str("Failed to parse response: ");
            body.append(e.as_str());
            Reply { status: 500, body }
        },
        ForecastFailure::Rejected(s, text) => {
            let mut body = String::from_str("Model service error: ");
            body.append(text.as_str());
            let status: u16 = if 500 <= s && s <= 599 { s } else { 500 };
            Reply { status, body }
        },
        ForecastFailure::Unreachable(e) => {
            let mut body = String::from_str("Failed to reach AI model: ");
            body.append(e.as_str());
            Reply { status: 500, body }
        },
    }
}

} // verus!
