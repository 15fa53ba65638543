//! Who is asking, and whether they may.
//!
//! A caller presents a bearer token in the `Authorization` header. The token,
//! once its signature has been checked elsewhere, carries a subject of three
//! comma-separated parts: the user's identifier, the user's role and the
//! user's shop.

use vstd::prelude::*;
use vstd::string::{StrSliceExecFns, StringExecFns};
use crate::text::{
    find_mark, i32_value, lemma_next_mark_skips, lemma_number_round_trip, next_mark,
    number_text, parse_i32, same_text, scan, scan_from, write_i32,
};

verus! {

/// An answer that refuses a request: the HTTP status, and the code and the
/// message of the body.
#[derive(Clone, Copy, Debug, PartialEq, Eq)]
pub struct Reply {
    pub status: u16,
    pub code: u16,
    pub message: &'static str,
}

/// Who may call an endpoint.
#[derive(Clone, Copy, Debug, PartialEq, Eq)]
pub enum Access {
    /// Every authenticated caller.
    Anyone,
    /// Every role but `Waiter`.
    NotWaiter,
    /// The roles `Admin` and `Manager`.
    AdminOrManager,
    /// The role `Admin`.
    AdminOnly,
}

/// The endpoints that ask for a bearer token.
#[derive(Clone, Copy, Debug, PartialEq, Eq)]
pub enum Endpoint {
    GetCategories,
    GetDiscountTypes,
    AddDiscountType,
    GetDiscountTypeById,
    UpdateDiscountType,
    DeleteDiscountType,
    GetIngredients,
    AddIngredient,
    GetIngredientById,
    UpdateIngredient,
    DeleteIngredient,
    GetIngredientUsages,
    AddIngredientUsages,
    GetIngredientUsageById,
    UpdateIngredientUsage,
    DeleteIngredientUsage,
    GetItems,
    AddItem,
    GetItemById,
    UpdateItem,
    DeleteItem,
    CreateOrder,
    GetOrders,
    GetOrderDetail,
    GetOrderById,
    UpdateOrder,
    GetDailySaleReport,
    DailySaleReportPdf,
    DailySaleReportExcel,
    GetPurchases,
    AddPurchase,
    GetPurchaseById,
    UpdatePurchase,
    DeletePurchase,
    GetRoles,
    GetShops,
    AddShop,
    GetShopById,
    UpdateShop,
    DeleteShop,
    GetTables,
    AddTable,
    GetTableById,
    UpdateTable,
    DeleteTable,
    GetDashboardData,
    GetUsers,
    AddUser,
    GetUserById,
    UpdateUser,
    DeleteUser,
}

/// The subject of a token. The two identifiers are present where the part
/// writes a whole number.
#[derive(Clone, Debug, PartialEq, Eq)]
pub struct Subject {
    pub user_id: Option<i32>,
    pub role: String,
    pub shop_id: Option<i32>,
}

/// The records that a listing shows to a caller.
#[derive(Clone, Copy, Debug, PartialEq, Eq)]
pub enum Scope {
    /// The records of every shop.
    Everything,
    /// The records of one shop.
    Shop { shop_id: i32 },
    /// The records of one shop that belong to one waiter.
    ShopAndWaiter { shop_id: i32, waiter_id: i32 },
}

/// The order in which a listing shows its records.
#[derive(Clone, Copy, Debug, PartialEq, Eq)]
pub enum Sort {
    /// By name, for the waiter who looks something up.
    ByName,
    /// The newest first, for those who manage the records.
    NewestFirst,
}

/// The records that a listing of the catalogue (categories, discount types,
/// items, tables) shows: a waiter sees those of the waiter's shop, everyone
/// else sees all.
pub open spec fn catalogue_scope_of(role: Seq<char>, shop_id: i32) -> Scope {
    if role == "Waiter"@ {
        Scope::Shop { shop_id }
    } else {
        Scope::Everything
    }
}

/// The orders that a caller sees: a manager those of the manager's shop, a
/// waiter the waiter's own in the waiter's shop, everyone else all.
pub open spec fn order_scope_of(role: Seq<char>, shop_id: i32, user_id: i32) -> Scope {
    if role == "Manager"@ {
        Scope::Shop { shop_id }
    } else if role == "Waiter"@ {
        Scope::ShopAndWaiter { shop_id, waiter_id: user_id }
    } else {
        Scope::Everything
    }
}

/// The token of an `Authorization` header value: the value must be made of
/// exactly two words, of which the first is `Bearer`; the token is the
/// second.
pub open spec fn bearer_of(s: Seq<char>) -> Option<Seq<char>> {
    let a = scan(s, 0, true);
    let b = scan(s, a, false);
    let c = scan(s, b, true);
    let d = scan(s, c, false);
    let e = scan(s, d, true);
    if a < s.len() && c < s.len() && e == s.len() && s.subrange(a, b) == "Bearer"@ {
        Some(s.subrange(c, d))
    } else {
        None
    }
}

/// The role that a subject names: the part between the first and the second
/// comma, if the subject has exactly two commas.
pub open spec fn subject_role(s: Seq<char>) -> Option<Seq<char>> {
    let c1 = next_mark(s, 0, ',');
    let c2 = next_mark(s, c1 + 1, ',');
    let c3 = next_mark(s, c2 + 1, ',');
    if c1 < s.len() && c2 < s.len() && c3 == s.len() {
        Some(s.subrange(c1 + 1, c2))
    } else {
        None
    }
}

/// The part of a three-part subject before the first comma.
pub open spec fn subject_user(s: Seq<char>) -> Seq<char> {
    s.subrange(0, next_mark(s, 0, ','))
}

/// The part of a three-part subject after the second comma.
pub open spec fn subject_shop(s: Seq<char>) -> Seq<char> {
    s.subrange(next_mark(s, next_mark(s, 0, ',') + 1, ',') + 1, s.len() as int)
}

/// The subject of a user: the identifier, the role and the shop, with a
/// comma between them.
pub open spec fn subject_of(user_id: i32, role: Seq<char>, shop_id: i32) -> Seq<char> {
    number_text(user_id as int) + seq![','] + role + seq![','] + number_text(shop_id as int)
}

/// A subject that is written for a role without a comma reads back as the
/// identifier, the role and the shop that it was written for.
pub proof fn lemma_subject_round_trip(user_id: i32, role: Seq<char>, shop_id: i32)
    requires
        !role.contains(','),
    ensures
        subject_role(subject_of(user_id, role, shop_id)) == Some(role),
        i32_value(subject_user(subject_of(user_id, role, shop_id))) == Some(user_id),
        i32_value(subject_shop(subject_of(user_id, role, shop_id))) == Some(shop_id),
{
    let user = number_text(user_id as int);
    let shop = number_text(shop_id as int);
    let s = subject_of(user_id, role, shop_id);
    lemma_number_round_trip(user_id);
    lemma_number_round_trip(shop_id);
    let c1 = user.len() as int;
    let c2 = c1 + 1 + role.len();
    assert(s.len() == c2 + 1 + shop.len());
    assert forall|k: int| 0 <= k < c1 implies s[k] != ',' by {
        assert(s[k] == user[k]);
    }
    assert(s[c1] == ',');
    lemma_next_mark_skips(s, 0, c1, ',');
    assert forall|k: int| c1 + 1 <= k < c2 implies s[k] != ',' by {
        assert(s[k] == role[k - c1 - 1]);
    }
    assert(s[c2] == ',');
    lemma_next_mark_skips(s, c1 + 1, c2, ',');
    assert forall|k: int| c2 + 1 <= k < s.len() implies s[k] != ',' by {
        assert(s[k] == shop[k - c2 - 1]);
    }
    lemma_next_mark_skips(s, c2 + 1, s.len() as int, ',');
    assert(s.subrange(0, c1) =~= user);
    assert(s.subrange(c1 + 1, c2) =~= role);
    assert(s.subrange(c2 + 1, s.len() as int) =~= shop);
}

/// Whether `access` lets a caller of this role in.
pub open spec fn allows(access: Access, role: Seq<char>) -> bool {
    match access {
        Access::Anyone => true,
        Access::NotWaiter => role != "Waiter"@,
        Access::AdminOrManager => role == "Admin"@ || role == "Manager"@,
        Access::AdminOnly => role == "Admin"@,
    }
}

/// Who may call an endpoint.
pub open spec fn access_of(endpoint: Endpoint) -> Access {
    match endpoint {
        Endpoint::AddDiscountType
        | Endpoint::GetDiscountTypeById
        | Endpoint::UpdateDiscountType
        | Endpoint::DeleteDiscountType
        | Endpoint::GetIngredientUsageById
        | Endpoint::DeleteIngredientUsage
        | Endpoint::AddTable
        | Endpoint::GetTableById
        | Endpoint::UpdateTable
        | Endpoint::DeleteTable => Access::AdminOrManager,
        Endpoint::GetIngredients
        | Endpoint::AddIngredient
        | Endpoint::GetIngredientById
        | Endpoint::UpdateIngredient
        | Endpoint::DeleteIngredient
        | Endpoint::GetPurchases
        | Endpoint::AddPurchase
        | Endpoint::GetPurchaseById
        | Endpoint::UpdatePurchase
        | Endpoint::DeletePurchase
        | Endpoint::GetShops
        | Endpoint::AddShop
        | Endpoint::GetShopById
        | Endpoint::UpdateShop
        | Endpoint::DeleteShop
        | Endpoint::GetUsers
        | Endpoint::AddUser
        | Endpoint::GetUserById
        | Endpoint::UpdateUser
        | Endpoint::DeleteUser => Access::AdminOnly,
        Endpoint::AddIngredientUsages
        | Endpoint::UpdateIngredientUsage
        | Endpoint::AddItem
        | Endpoint::UpdateItem
        | Endpoint::DeleteItem => Access::NotWaiter,
        _ => Access::Anyone,
    }
}

/// The body code with which an endpoint refuses a caller who may not call
/// it: 400 for recording and correcting usage, 401 elsewhere.
pub open spec fn refusal_code(endpoint: Endpoint) -> u16 {
    match endpoint {
        Endpoint::AddIngredientUsages | Endpoint::UpdateIngredientUsage => 400,
        _ => 401,
    }
}

/// The answer to a request without an `Authorization` header.
pub open spec fn header_missing() -> Reply {
    Reply { status: 401, code: 401, message: "Authorization header missing" }
}

/// The answer to a header that is not `Bearer` and a token.
pub open spec fn header_malformed() -> Reply {
    Reply { status: 400, code: 400, message: "Invalid Authorization header format" }
}

/// The answer to a token that does not verify.
pub open spec fn token_invalid() -> Reply {
    Reply { status: 401, code: 401, message: "Invalid token" }
}

/// Takes the subject that checking a token gave; `None` is a token that did
/// not verify.
pub fn verified_subject(checked: Option<String>) -> (r: Result<String, Reply>)
    ensures
        match checked {
            Some(sub) => r == Ok::<String, Reply>(sub),
            None => r == Err::<String, Reply>(token_invalid()),
        },
{
    match checked {
        Some(sub) => Ok(sub),
        None => Err(Reply { status: 401, code: 401, message: "Invalid token" }),
    }
}

/// The answer to a subject that does not have three parts.
pub open spec fn subject_malformed() -> Reply {
    Reply { status: 500, code: 500, message: "Invalid sub format in token" }
}

/// Takes the token out of the `Authorization` header. `None` is a request
/// without the header.
pub fn bearer_token(header: Option<&str>) -> (r: Result<String, Reply>)
    ensures
        match header {
            None => r == Err::<String, Reply>(header_missing()),
            Some(value) => match bearer_of(value@) {
                Some(token) => r is Ok && r.unwrap()@ == token,
                None => r == Err::<String, Reply>(header_malformed()),
            },
        },
{
    let value = match header {
        None => {
            return Err(Reply { status: 401, code: 401, message: "Authorization header missing" });
        },
        Some(value) => value,
    };
    let n = value.unicode_len();
    let a = scan_from(value, 0, true);
    let b = scan_from(value, a, false);
    let c = scan_from(value, b, true);
    let d = scan_from(value, c, false);
    let e = scan_from(value, d, true);
    if a < n && c < n && e == n {
        let scheme = value.substring_char(a, b);
        if same_text(scheme, "Bearer") {
            let token = value.substring_char(c, d);
            return Ok(token.to_owned());
        }
    }
    Err(Reply { status: 400, code: 400, message: "Invalid Authorization header format" })
}

/// Reads the subject of a token.
pub fn parse_subject(sub: &str) -> (r: Result<Subject, Reply>)
    ensures
        match subject_role(sub@) {
            Some(role) => {
                &&& r is Ok
                &&& r.unwrap().role@ == role
                &&& r.unwrap().user_id == i32_value(subject_user(sub@))
                &&& r.unwrap().shop_id == i32_value(subject_shop(sub@))
            },
            None => r == Err::<Subject, Reply>(subject_malformed()),
        },
{
    let n = sub.unicode_len();
    let c1 = find_mark(sub, 0, ',');
    if c1 >= n {
        return Err(Reply { status: 500, code: 500, message: "Invalid sub format in token" });
    }
    let c2 = find_mark(sub, c1 + 1, ',');
    if c2 >= n {
        return Err(Reply { status: 500, code: 500, message: "Invalid sub format in token" });
    }
    let c3 = find_mark(sub, c2 + 1, ',');
    if c3 != n {
        return Err(Reply { status: 500, code: 500, message: "Invalid sub format in token" });
    }
    let user = sub.substring_char(0, c1);
    let role = sub.substring_char(c1 + 1, c2);
    let shop = sub.substring_char(c2 + 1, n);
    Ok(Subject { user_id: parse_i32(user), role: role.to_owned(), shop_id: parse_i32(shop) })
}

/// Writes the subject of a user.
pub fn subject_text(user_id: i32, role: &str, shop_id: i32) -> (r: String)
    ensures
        r@ == subject_of(user_id, role@, shop_id),
{
    proof {
        reveal_strlit(",");
    }
    let mut out = String::new();
    write_i32(user_id, &mut out);
    out.append(",");
    out.append(role);
    out.append(",");
    write_i32(shop_id, &mut out);
    assert(out@ =~= subject_of(user_id, role@, shop_id));
    out
}

/// Whether `access` lets a caller of this role in.
pub fn permits(access: Access, role: &str) -> (r: bool)
    ensures
        r == allows(access, role@),
{
    match access {
        Access::Anyone => true,
        Access::NotWaiter => !same_text(role, "Waiter"),
        Access::AdminOrManager => same_text(role, "Admin") || same_text(role, "Manager"),
        Access::AdminOnly => same_text(role, "Admin"),
    }
}

/// Gives what [`catalogue_scope_of`] describes.
pub fn catalogue_scope(role: &str, shop_id: i32) -> (r: Scope)
    ensures
        r == catalogue_scope_of(role@, shop_id),
{
    if same_text(role, "Waiter") {
        Scope::Shop { shop_id }
    } else {
        Scope::Everything
    }
}

/// The order of a listing of the catalogue: by name for a waiter, the newest
/// first for everyone else.
pub fn catalogue_sort(role: &str) -> (r: Sort)
    ensures
        r == if role@ == "Waiter"@ {
            Sort::ByName
        } else {
            Sort::NewestFirst
        },
{
    if same_text(role, "Waiter") {
        Sort::ByName
    } else {
        Sort::NewestFirst
    }
}

/// Gives what [`order_scope_of`] describes.
pub fn order_scope(role: &str, shop_id: i32, user_id: i32) -> (r: Scope)
    ensures
        r == order_scope_of(role@, shop_id, user_id),
{
    if same_text(role, "Manager") {
        Scope::Shop { shop_id }
    } else if same_text(role, "Waiter") {
        Scope::ShopAndWaiter { shop_id, waiter_id: user_id }
    } else {
        Scope::Everything
    }
}

/// Who may call an endpoint.
pub fn required_access(endpoint: Endpoint) -> (r: Access)
    ensures
        r == access_of(endpoint),
{
    match endpoint {
        Endpoint::AddDiscountType
        | Endpoint::GetDiscountTypeById
        | Endpoint::UpdateDiscountType
        | Endpoint::DeleteDiscountType
        | Endpoint::GetIngredientUsageById
        | Endpoint::DeleteIngredientUsage
        | Endpoint::AddTable
        | Endpoint::GetTableById
        | Endpoint::UpdateTable
        | Endpoint::DeleteTable => Access::AdminOrManager,
        Endpoint::GetIngredients
        | Endpoint::AddIngredient
        | Endpoint::GetIngredientById
        | Endpoint::UpdateIngredient
        | Endpoint::DeleteIngredient
        | Endpoint::GetPurchases
        | Endpoint::AddPurchase
        | Endpoint::GetPurchaseById
        | Endpoint::UpdatePurchase
        | Endpoint::DeletePurchase
        | Endpoint::GetShops
        | Endpoint::AddShop
        | Endpoint::GetShopById
        | Endpoint::UpdateShop
        | Endpoint::DeleteShop
        | Endpoint::GetUsers
        | Endpoint::AddUser
        | Endpoint::GetUserById
        | Endpoint::UpdateUser
        | Endpoint::DeleteUser => Access::AdminOnly,
        Endpoint::AddIngredientUsages
        | Endpoint::UpdateIngredientUsage
        | Endpoint::AddItem
        | Endpoint::UpdateItem
        | Endpoint::DeleteItem => Access::NotWaiter,
        _ => Access::Anyone,
    }
}

/// The answer that refuses a caller of this role at an endpoint, if the
/// endpoint is not open to the role.
pub open spec fn role_fault(endpoint: Endpoint, role: Seq<char>) -> Option<Reply> {
    if allows(access_of(endpoint), role) {
        None
    } else {
        Some(Reply { status: 401, code: refusal_code(endpoint), message: "Unauthorized!" })
    }
}

/// Lets a caller of this role through to an endpoint, or refuses with status
/// 401 and the message `Unauthorized!`.
pub fn authorize(endpoint: Endpoint, role: &str) -> (r: Result<(), Reply>)
    ensures
        match role_fault(endpoint, role@) {
            Some(reply) => r == Err::<(), Reply>(reply),
            None => r is Ok,
        },
{
    if permits(required_access(endpoint), role) {
        Ok(())
    } else {
        let code: u16 = match endpoint {
            Endpoint::AddIngredientUsages | Endpoint::UpdateIngredientUsage => 400,
            _ => 401,
        };
        Err(Reply { status: 401, code, message: "Unauthorized!" })
    }
}

} // verus!
