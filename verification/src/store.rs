//! What is kept in PostgreSQL and Redis: rows, keys, limits and the decisions
//! around them. The statements themselves are sent by the program.
use vstd::prelude::*;

pub mod redis;
pub mod rows;

verus! {

/// Errors of the stores. The first three and the last carry the text of the
/// driver's error.
#[derive(Debug, Clone)]
pub enum StoreError {
    Pg(String),
    Redis(String),
    Pool(String),
    BuildPool(String),
    NotFound { entity: String, id: String },
    Serde(String),
}

/// The display form of a store error.
pub open spec fn store_error_text(e: StoreError) -> Seq<char> {
    match e {
        StoreError::Pg(m) => "postgres: "@ + m@,
        StoreError::Redis(m) => "redis: "@ + m@,
        StoreError::Pool(m) => "pool: "@ + m@,
        StoreError::BuildPool(m) => "pool build: "@ + m@,
        StoreError::NotFound { entity, id } => "not found: "@ + entity@ + " "@ + id@,
        StoreError::Serde(m) => "serde: "@ + m@,
    }
}

impl StoreError {
    /// The display form.
    pub fn to_string(&self) -> (r: String)
        ensures
            r@ == store_error_text(*self),
    {
        match self {
            StoreError::Pg(m) => "postgres: ".to_string().concat(m.as_str()),
            StoreError::Redis(m) => "redis: ".to_string().concat(m.as_str()),
            StoreError::Pool(m) => "pool: ".to_string().concat(m.as_str()),
            StoreError::BuildPool(m) => "pool build: ".to_string().concat(m.as_str()),
            StoreError::NotFound { entity, id } => {
                let mut r = "not found: ".to_string();
                r.append(entity.as_str());
                r.append(" ");
                r.append(id.as_str());
                r
            },
            StoreError::Serde(m) => "serde: ".to_string().concat(m.as_str()),
        }
    }
}

/// Each error is shown by the store that it comes from, with its cause.
pub proof fn law_store_errors_are_shown_by_store(e: StoreError, r: String)
    requires
        call_ensures(StoreError::to_string, (&e,), r),
    ensures
        e matches StoreError::Pg(m) ==> r@ == "postgres: "@ + m@,
        e matches StoreError::Redis(m) ==> r@ == "redis: "@ + m@,
        e matches StoreError::Pool(m) ==> r@ == "pool: "@ + m@,
        e matches StoreError::BuildPool(m) ==> r@ == "pool build: "@ + m@,
        e matches StoreError::Serde(m) ==> r@ == "serde: "@ + m@,
        e matches StoreError::NotFound { entity, id } ==> r@ == "not found: "@ + entity@ + " "@
            + id@,
{
}

} // verus!
