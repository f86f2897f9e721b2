//! The verified half of the remote source: the mapping from one remote
//! exchange to the shared result taxonomy, and the request paths of the
//! remote API, one per operation.
//!
//! Issuing the request itself is transport work and lives outside the
//! library; whatever arrives is handed back in as an [`HttpOutcome`].

use vstd::prelude::*;
use crate::provider::ProviderResult;

verus! {

/// The taxonomy class of an HTTP status code.
#[derive(Clone, Copy, Debug, PartialEq, Eq, Structural)]
pub enum StatusClass {
    Failed,
    NotFound,
    Unauthorized,
    TryBody,
}

/// How the remote source judges an HTTP status: server errors (500-599)
/// and status 400 are inconclusive; 404 is authoritative absence; 401 and
/// 403 are authoritative rejections; any other status is judged by
/// whether its body decodes.
pub open spec fn spec_status_class(status: u16) -> StatusClass {
    if (500 <= status && status <= 599) || status == 400 {
        StatusClass::Failed
    } else if status == 404 {
        StatusClass::NotFound
    } else if status == 401 || status == 403 {
        StatusClass::Unauthorized
    } else {
        StatusClass::TryBody
    }
}

pub fn classify_status(status: u16) -> (c: StatusClass)
    ensures
        c == spec_status_class(status),
{
    if (500 <= status && status <= 599) || status == 400 {
        StatusClass::Failed
    } else if status == 404 {
        StatusClass::NotFound
    } else if status == 401 || status == 403 {
        StatusClass::Unauthorized
    } else {
        StatusClass::TryBody
    }
}

/// One remote exchange, as the library sees it: either the transport
/// failed outright, or a response arrived, with its status code and its
/// body if one decoded into the expected value shape.
pub enum HttpOutcome<T> {
    NoResponse,
    Response(u16, Option<T>),
}

/// The taxonomy result of one remote exchange.
pub open spec fn spec_response_result<T>(outcome: HttpOutcome<T>) -> ProviderResult<T> {
    match outcome {
        HttpOutcome::NoResponse => ProviderResult::Failed,
        HttpOutcome::Response(status, body) => match spec_status_class(status) {
            StatusClass::Failed => ProviderResult::Failed,
            StatusClass::NotFound => ProviderResult::NotFound,
            StatusClass::Unauthorized => ProviderResult::Unauthorized,
            StatusClass::TryBody => match body {
                Some(v) => ProviderResult::Success(v),
                None => ProviderResult::Failed,
            },
        },
    }
}

/// Maps one remote exchange to the shared result taxonomy.
pub fn response_result<T>(outcome: HttpOutcome<T>) -> (r: ProviderResult<T>)
    ensures
        r == spec_response_result(outcome),
{
    match outcome {
        HttpOutcome::NoResponse => ProviderResult::Failed,
        HttpOutcome::Response(status, body) => match classify_status(status) {
            StatusClass::Failed => ProviderResult::Failed,
            StatusClass::NotFound => ProviderResult::NotFound,
            StatusClass::Unauthorized => ProviderResult::Unauthorized,
            StatusClass::TryBody => match body {
                Some(v) => ProviderResult::Success(v),
                None => ProviderResult::Failed,
            },
        },
    }
}

/// The character of one decimal digit.
pub open spec fn spec_digit(d: nat) -> char {
    if d == 0 {
        '0'
    } else if d == 1 {
        '1'
    } else if d == 2 {
        '2'
    } else if d == 3 {
        '3'
    } else if d == 4 {
        '4'
    } else if d == 5 {
        '5'
    } else if d == 6 {
        '6'
    } else if d == 7 {
        '7'
    } else if d == 8 {
        '8'
    } else {
        '9'
    }
}

/// The decimal digits of `n`, most significant first.
pub open spec fn spec_decimal(n: nat) -> Seq<char>
    decreases n,
{
    if n < 10 {
        seq![spec_digit(n)]
    } else {
        spec_decimal(n / 10).push(spec_digit(n % 10))
    }
}

fn digit_str(d: u64) -> (r: &'static str)
    requires
        d < 10,
    ensures
        r@ == seq![spec_digit(d as nat)],
{
    if d == 0 {
        proof {
            reveal_strlit("0");
        }
        let s = "0";
        proof {
            assert(s@ =~= seq!['0']);
        }
        s
    } else if d == 1 {
        proof {
            reveal_strlit("1");
        }
        let s = "1";
        proof {
            assert(s@ =~= seq!['1']);
        }
        s
    } else if d == 2 {
        proof {
            reveal_strlit("2");
        }
        let s = "2";
        proof {
            assert(s@ =~= seq!['2']);
        }
        s
    } else if d == 3 {
        proof {
            reveal_strlit("3");
        }
        let s = "3";
        proof {
            assert(s@ =~= seq!['3']);
        }
        s
    } else if d == 4 {
        proof {
            reveal_strlit("4");
        }
        let s = "4";
        proof {
            assert(s@ =~= seq!['4']);
        }
        s
    } else if d == 5 {
        proof {
            reveal_strlit("5");
        }
        let s = "5";
        proof {
            assert(s@ =~= seq!['5']);
        }
        s
    } else if d == 6 {
        proof {
            reveal_strlit("6");
        }
        let s = "6";
        proof {
            assert(s@ =~= seq!['6']);
        }
        s
    } else if d == 7 {
        proof {
            reveal_strlit("7");
        }
        let s = "7";
        proof {
            assert(s@ =~= seq!['7']);
        }
        s
    } else if d == 8 {
        proof {
            reveal_strlit("8");
        }
        let s = "8";
        proof {
            assert(s@ =~= seq!['8']);
        }
        s
    } else {
        proof {
            reveal_strlit("9");
        }
        let s = "9";
        proof {
            assert(s@ =~= seq!['9']);
        }
        s
    }
}

/// Formats `n` in decimal.
pub fn u64_to_string(n: u64) -> (r: String)
    ensures
        r@ == spec_decimal(n as nat),
    decreases n,
{
    if n < 10 {
        String::from_str(digit_str(n))
    } else {
        let mut s = u64_to_string(n / 10);
        s.append(digit_str(n % 10));
        proof {
            assert(s@ =~= spec_decimal(n as nat));
        }
        s
    }
}

/// The characters a boolean query parameter is rendered as.
pub open spec fn spec_bool_param(b: bool) -> Seq<char> {
    if b {
        "true"@
    } else {
        "false"@
    }
}

fn bool_param(b: bool) -> (r: &'static str)
    ensures
        r@ == spec_bool_param(b),
{
    if b {
        "true"
    } else {
        "false"
    }
}

// The request paths of the remote API, one per operation.

pub fn system_path(id: &str) -> (r: String)
    ensures
        r@ == "/systems/"@ + id@,
{
    let mut s = String::from_str("/systems/");
    s.append(id);
    s
}

pub fn system_settings_path(id: &str) -> (r: String)
    ensures
        r@ == "/systems/"@ + id@ + "/settings"@,
{
    let mut s = String::from_str("/systems/");
    s.append(id);
    s.append("/settings");
    s
}

pub fn system_guild_settings_path(id: &str, guild: &str) -> (r: String)
    ensures
        r@ == "/systems/"@ + id@ + "/guilds/"@ + guild@ + "/settings"@,
{
    let mut s = String::from_str("/systems/");
    s.append(id);
    s.append("/guilds/");
    s.append(guild);
    s.append("/settings");
    s
}

pub fn system_autoproxy_path(id: &str) -> (r: String)
    ensures
        r@ == "/systems/"@ + id@ + "/autoproxy"@,
{
    let mut s = String::from_str("/systems/");
    s.append(id);
    s.append("/autoproxy");
    s
}

pub fn system_members_path(id: &str) -> (r: String)
    ensures
        r@ == "/systems/"@ + id@ + "/members"@,
{
    let mut s = String::from_str("/systems/");
    s.append(id);
    s.append("/members");
    s
}

pub fn member_path(id: &str) -> (r: String)
    ensures
        r@ == "/members/"@ + id@,
{
    let mut s = String::from_str("/members/");
    s.append(id);
    s
}

pub fn member_groups_path(id: &str) -> (r: String)
    ensures
        r@ == "/members/"@ + id@ + "/groups"@,
{
    let mut s = String::from_str("/members/");
    s.append(id);
    s.append("/groups");
    s
}

pub fn member_guild_settings_path(id: &str, guild: &str) -> (r: String)
    ensures
        r@ == "/members/"@ + id@ + "/guilds/"@ + guild@ + "/settings"@,
{
    let mut s = String::from_str("/members/");
    s.append(id);
    s.append("/guilds/");
    s.append(guild);
    s.append("/settings");
    s
}

pub fn system_groups_path(id: &str, with_member: bool) -> (r: String)
    ensures
        r@ == "/systems/"@ + id@ + "/groups?with_member="@ + spec_bool_param(with_member),
{
    let mut s = String::from_str("/systems/");
    s.append(id);
    s.append("/groups?with_member=");
    s.append(bool_param(with_member));
    s
}

pub fn group_path(id: &str) -> (r: String)
    ensures
        r@ == "/groups/"@ + id@,
{
    let mut s = String::from_str("/groups/");
    s.append(id);
    s
}

pub fn group_members_path(id: &str) -> (r: String)
    ensures
        r@ == "/groups/"@ + id@ + "/members"@,
{
    let mut s = String::from_str("/groups/");
    s.append(id);
    s.append("/members");
    s
}

pub fn system_switches_path(id: &str, before: &str, limit: u64) -> (r: String)
    ensures
        r@ == "/systems/"@ + id@ + "/switches?before="@ + before@ + "&limit="@ + spec_decimal(
            limit as nat,
        ),
{
    let mut s = String::from_str("/systems/");
    s.append(id);
    s.append("/switches?before=");
    s.append(before);
    s.append("&limit=");
    let digits = u64_to_string(limit);
    s.append(digits.as_str());
    s
}

pub fn system_active_switch_path(id: &str, switch_id: &str) -> (r: String)
    ensures
        r@ == "/systems/"@ + id@ + "/switches/"@ + switch_id@ + "/active"@,
{
    let mut s = String::from_str("/systems/");
    s.append(id);
    s.append("/switches/");
    s.append(switch_id);
    s.append("/active");
    s
}

pub fn switch_path(id: &str, switch_id: &str) -> (r: String)
    ensures
        r@ == "/systems/"@ + id@ + "/switches/"@ + switch_id@,
{
    let mut s = String::from_str("/systems/");
    s.append(id);
    s.append("/switches/");
    s.append(switch_id);
    s
}

pub fn message_path(id: &str) -> (r: String)
    ensures
        r@ == "/messages/"@ + id@,
{
    let mut s = String::from_str("/messages/");
    s.append(id);
    s
}

} // verus!
