//! The rules that the demo API's handlers apply: what a request must hold to
//! be accepted, the records that are answered, and what a simulated failure
//! answers.

use vstd::prelude::*;
use vstd::string::StringExecFns;

verus! {

/// Why a request is refused before any work is done.
#[derive(Clone, Copy, Debug, PartialEq, Eq, Structural)]
pub enum Rejection {
    /// A user without a name.
    EmptyName,
    /// An order without items.
    NoItems,
}

/// The failure that the error endpoint is asked to simulate.
#[derive(Clone, Copy, Debug, PartialEq, Eq, Structural)]
pub enum SimulatedError {
    Timeout,
    Server,
    Database,
    Generic,
}

/// A user of the demo API.
#[derive(Clone, Debug, PartialEq, Eq)]
pub struct User {
    pub id: String,
    pub name: String,
    pub email: String,
    pub created_at: String,
}

/// An order of the demo API, without its amount.
#[derive(Clone, Debug, PartialEq, Eq)]
pub struct Order {
    pub order_id: String,
    pub user_id: String,
    pub status: String,
    pub created_at: String,
}

/// What the health endpoint answers.
#[derive(Clone, Debug, PartialEq, Eq)]
pub struct Health {
    pub status: String,
    pub version: String,
    pub timestamp: String,
}

/// The length of an identifier in its hyphenated form: 32 hex digits and
/// four hyphens.
pub const IDENTIFIER_LENGTH: usize = 36;

/// How many steps the slow operation takes.
pub const SLOW_OPERATION_STEPS: u64 = 5;

/// How long each step of the slow operation takes, in milliseconds.
pub const SLOW_OPERATION_STEP_MILLIS: u64 = 200;

/// The failure that a requested error type names. An empty or unknown type
/// is the generic failure.
pub open spec fn simulated_error(error_type: Seq<char>) -> SimulatedError {
    if error_type == "timeout"@ {
        SimulatedError::Timeout
    } else if error_type == "server"@ {
        SimulatedError::Server
    } else if error_type == "database"@ {
        SimulatedError::Database
    } else {
        SimulatedError::Generic
    }
}

/// The error type that is logged: `generic` where none was requested.
pub open spec fn effective_error_type(requested: Seq<char>) -> Seq<char> {
    if requested.len() == 0 {
        "generic"@
    } else {
        requested
    }
}

fn same_text(a: &str, b: &str) -> (r: bool)
    ensures
        r == (a@ == b@),
{
    String::from_str(a) == String::from_str(b)
}

/// A fresh random identifier: `uuid::Uuid::new_v4`, written by its `Display`,
/// which is the hyphenated form. Which identifier comes out is left open.
#[verifier::external_body]
fn fresh_identifier() -> (id: String)
    ensures
        id@.len() == IDENTIFIER_LENGTH,
{
    uuid::Uuid::new_v4().to_string()
}

/// The current time in UTC as an RFC 3339 string: `chrono::Utc::now` and
/// `DateTime::to_rfc3339`. Nothing is said of the string.
#[verifier::external_body]
fn timestamp_now() -> (t: String) {
    chrono::Utc::now().to_rfc3339()
}

/// A user can be created only with a name.
pub fn check_user(name: &str) -> (r: Result<(), Rejection>)
    ensures
        r is Err <==> name@.len() == 0,
        r matches Err(e) ==> e == Rejection::EmptyName,
{
    if name.is_empty() {
        Err(Rejection::EmptyName)
    } else {
        Ok(())
    }
}

/// An order can be created only with at least one item.
pub fn check_order(item_count: usize) -> (r: Result<(), Rejection>)
    ensures
        r is Err <==> item_count == 0,
        r matches Err(e) ==> e == Rejection::NoItems,
{
    if item_count == 0 {
        Err(Rejection::NoItems)
    } else {
        Ok(())
    }
}

/// The user that is created from a request, given its identifier and the
/// time of creation: refused without a name, else the record of the four.
pub fn user_record(id: String, name: String, email: String, created_at: String) -> (r: Result<
    User,
    Rejection,
>)
    ensures
        r is Err <==> name@.len() == 0,
        r matches Err(e) ==> e == Rejection::EmptyName,
        r matches Ok(u) ==> u == (User { id, name, email, created_at }),
{
    match check_user(name.as_str()) {
        Ok(_) => Ok(User { id, name, email, created_at }),
        Err(e) => Err(e),
    }
}

/// Creates a user with a fresh identifier, now. A request without a name is
/// refused; any other is accepted and keeps its name and email.
pub fn create_user(name: String, email: String) -> (r: Result<User, Rejection>)
    ensures
        r is Err <==> name@.len() == 0,
        r matches Err(e) ==> e == Rejection::EmptyName,
        r matches Ok(u) ==> u.name == name && u.email == email && u.id@.len()
            == IDENTIFIER_LENGTH,
{
    user_record(fresh_identifier(), name, email, timestamp_now())
}

/// The user that the mock database holds under `id`, as read at `read_at`.
pub fn stored_user(id: &str, read_at: String) -> (u: User)
    ensures
        u.id@ == id@,
        u.name@ == "John Doe"@,
        u.email@ == "john.doe@example.com"@,
        u.created_at == read_at,
{
    User {
        id: String::from_str(id),
        name: String::from_str("John Doe"),
        email: String::from_str("john.doe@example.com"),
        created_at: read_at,
    }
}

/// Looks a user up in the mock database, which holds one under every
/// identifier.
pub fn fetch_user_from_database(id: &str) -> (r: Option<User>)
    ensures
        r matches Some(u) && u.id@ == id@ && u.name@ == "John Doe"@ && u.email@
            == "john.doe@example.com"@,
{
    Some(stored_user(id, timestamp_now()))
}

/// The order that is created for a user, given its identifier and the time
/// of creation: refused without items, else confirmed.
pub fn order_record(order_id: String, user_id: String, item_count: usize, created_at: String) -> (r:
    Result<Order, Rejection>)
    ensures
        r is Err <==> item_count == 0,
        r matches Err(e) ==> e == Rejection::NoItems,
        r matches Ok(o) ==> o.order_id == order_id && o.user_id == user_id && o.status@
            == "confirmed"@ && o.created_at == created_at,
{
    match check_order(item_count) {
        Ok(_) => Ok(
            Order { order_id, user_id, status: String::from_str("confirmed"), created_at },
        ),
        Err(e) => Err(e),
    }
}

/// Creates an order with a fresh identifier, now. A request without items is
/// refused; any other is confirmed for its user.
pub fn create_order(user_id: String, item_count: usize) -> (r: Result<Order, Rejection>)
    ensures
        r is Err <==> item_count == 0,
        r matches Err(e) ==> e == Rejection::NoItems,
        r matches Ok(o) ==> o.user_id == user_id && o.status@ == "confirmed"@ && o.order_id@.len()
            == IDENTIFIER_LENGTH,
{
    order_record(fresh_identifier(), user_id, item_count, timestamp_now())
}

/// The order that the mock database holds under `id`, as read at `read_at`.
pub fn stored_order(id: &str, read_at: String) -> (o: Order)
    ensures
        o.order_id@ == id@,
        o.user_id@ == "user-123"@,
        o.status@ == "shipped"@,
        o.created_at == read_at,
{
    Order {
        order_id: String::from_str(id),
        user_id: String::from_str("user-123"),
        status: String::from_str("shipped"),
        created_at: read_at,
    }
}

/// Looks an order up in the mock database, which holds a shipped one under
/// every identifier.
pub fn get_order(id: &str) -> (o: Order)
    ensures
        o.order_id@ == id@,
        o.user_id@ == "user-123"@,
        o.status@ == "shipped"@,
{
    stored_order(id, timestamp_now())
}

/// The health report of a service of the given version at the given time.
pub fn health_report(version: &str, timestamp: String) -> (h: Health)
    ensures
        h.status@ == "healthy"@,
        h.version@ == version@,
        h.timestamp == timestamp,
{
    Health {
        status: String::from_str("healthy"),
        version: String::from_str(version),
        timestamp,
    }
}

/// The health report of a service of the given version, now.
pub fn health(version: &str) -> (h: Health)
    ensures
        h.status@ == "healthy"@,
        h.version@ == version@,
{
    health_report(version, timestamp_now())
}

/// The error type to log and to classify for a request.
pub fn error_type_or_generic(requested: &str) -> (r: &str)
    ensures
        r@ == effective_error_type(requested@),
{
    if requested.is_empty() {
        "generic"
    } else {
        requested
    }
}

/// The failure to simulate for an error type.
pub fn classify_error(error_type: &str) -> (r: SimulatedError)
    ensures
        r == simulated_error(error_type@),
{
    if same_text(error_type, "timeout") {
        SimulatedError::Timeout
    } else if same_text(error_type, "server") {
        SimulatedError::Server
    } else if same_text(error_type, "database") {
        SimulatedError::Database
    } else {
        SimulatedError::Generic
    }
}

/// The total duration of the slow operation in milliseconds.
pub fn slow_operation_millis() -> (r: u64)
    ensures
        r == SLOW_OPERATION_STEPS * SLOW_OPERATION_STEP_MILLIS,
        r == 1000,
{
    SLOW_OPERATION_STEPS * SLOW_OPERATION_STEP_MILLIS
}

impl Rejection {
    /// The HTTP status of the refusal: always 400.
    pub fn status(self) -> (r: u16)
        ensures
            r == 400,
    {
        400
    }

    /// The error text of the response body.
    pub fn message(self) -> (r: &'static str)
        ensures
            r@ == match self {
                Rejection::EmptyName => "Name cannot be empty"@,
                Rejection::NoItems => "Order must contain at least one item"@,
            },
    {
        match self {
            Rejection::EmptyName => "Name cannot be empty",
            Rejection::NoItems => "Order must contain at least one item",
        }
    }

    /// The warning that is logged for the refusal.
    pub fn log_message(self) -> (r: &'static str)
        ensures
            r@ == match self {
                Rejection::EmptyName => "User creation failed: empty name"@,
                Rejection::NoItems => "Order creation failed: no items"@,
            },
    {
        match self {
            Rejection::EmptyName => "User creation failed: empty name",
            Rejection::NoItems => "Order creation failed: no items",
        }
    }
}

impl SimulatedError {
    /// The HTTP status that the failure answers with.
    pub open spec fn spec_status(self) -> u16 {
        match self {
            SimulatedError::Timeout => 408,
            SimulatedError::Server => 500,
            SimulatedError::Database => 503,
            SimulatedError::Generic => 400,
        }
    }

    /// The HTTP status that the failure answers with.
    pub fn status(self) -> (r: u16)
        ensures
            r == self.spec_status(),
    {
        match self {
            SimulatedError::Timeout => 408,
            SimulatedError::Server => 500,
            SimulatedError::Database => 503,
            SimulatedError::Generic => 400,
        }
    }

    /// The error text of the response body.
    pub fn message(self) -> (r: &'static str)
        ensures
            r@ == match self {
                SimulatedError::Timeout => "Request timeout"@,
                SimulatedError::Server => "Internal server error"@,
                SimulatedError::Database => "Database connection failed"@,
                SimulatedError::Generic => "Bad request"@,
            },
    {
        match self {
            SimulatedError::Timeout => "Request timeout",
            SimulatedError::Server => "Internal server error",
            SimulatedError::Database => "Database connection failed",
            SimulatedError::Generic => "Bad request",
        }
    }

    /// What is logged before the failure is answered.
    pub fn log_message(self) -> (r: &'static str)
        ensures
            r@ == match self {
                SimulatedError::Timeout => "Simulating timeout error"@,
                SimulatedError::Server => "Simulating internal server error"@,
                SimulatedError::Database => "Simulating database connection error"@,
                SimulatedError::Generic => "Simulating generic error"@,
            },
    {
        match self {
            SimulatedError::Timeout => "Simulating timeout error",
            SimulatedError::Server => "Simulating internal server error",
            SimulatedError::Database => "Simulating database connection error",
            SimulatedError::Generic => "Simulating generic error",
        }
    }

    /// Whether the failure is logged as a warning rather than an error: only
    /// the timeout is.
    pub fn is_warning(self) -> (r: bool)
        ensures
            r == (self == SimulatedError::Timeout),
    {
        match self {
            SimulatedError::Timeout => true,
            _ => false,
        }
    }

    /// How many seconds the answer is held back: thirty for the timeout, none
    /// for the others.
    pub fn delay_seconds(self) -> (r: u64)
        ensures
            r == if self == SimulatedError::Timeout {
                30u64
            } else {
                0u64
            },
    {
        match self {
            SimulatedError::Timeout => 30,
            _ => 0,
        }
    }
}

/// Every answer of the error endpoint is a client or server error, and the
/// generic failure is what anything but the three named types gets.
pub proof fn lemma_simulated_errors(error_type: Seq<char>)
    ensures
        400 <= simulated_error(error_type).spec_status() < 600,
        error_type != "timeout"@ && error_type != "server"@ && error_type != "database"@
            ==> simulated_error(error_type) == SimulatedError::Generic,
        simulated_error(effective_error_type(Seq::empty())) == SimulatedError::Generic,
{
    reveal_strlit("generic");
    reveal_strlit("timeout");
    reveal_strlit("server");
    reveal_strlit("database");
    assert("generic"@[0] == 'g');
}

} // verus!
