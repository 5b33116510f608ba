//! Scouting: what is looked for, where and how long, and how a node that answers
//! is told of.
//!
//! A role is a bit of a mask: 3 is a router or a peer, not a third role.

use vstd::prelude::*;
use vstd::utf8::encode_utf8;

use crate::closure::adopt;
use crate::closure::build;
use crate::closure::discard;
use crate::closure::CClosure;
use crate::closure::DropCall;
use crate::closure::Invocation;
use crate::closure::MovedClosure;
use crate::handle::gravestone;
use crate::handle::is_live;
use crate::handle::live;
use crate::handle::state_of;
use crate::handle::take;
use crate::handle::Moved;
use crate::handle::Owned;
use crate::meta::z_id_t;
use crate::result::ZResult;
use crate::result::Z_EINVAL;
use crate::result::Z_ENULL;
use crate::result::Z_OK;
use crate::session::z_moved_config_t;
use crate::session::ConfigState;
use crate::slice::SliceRepr;
use crate::string::owned_string_from;
use crate::string::view_string_over;
use crate::string::z_loaned_string_t;
use crate::string::z_owned_string_t;
use crate::string::z_view_string_t;
use crate::text::is_trimmed;
use crate::text::joined;
use crate::text::lemma_trimmed_is_unique;
use crate::text::parse_number;
use crate::text::trim;
use crate::text::written_number;

verus! {

/// A router.
pub const Z_WHATAMI_ROUTER: i32 = 1;

/// A peer.
pub const Z_WHATAMI_PEER: i32 = 2;

/// A client.
pub const Z_WHATAMI_CLIENT: i32 = 4;

/// How long is scouted by default, in milliseconds.
pub const SCOUTING_TIMEOUT_DEFAULT_MS: u64 = 1000;

/// What is scouted for by default: routers and peers.
pub const SCOUTING_WHAT_DEFAULT: u8 = 3;

/// How to scout.
#[derive(Clone, Copy, Debug, PartialEq, Eq, Structural)]
pub struct z_scout_options_t {
    /// In milliseconds.
    pub timeout_ms: u64,
    /// The roles to scout for, as a mask.
    pub what: i32,
}

/// Fills in the default scout options.
pub fn z_scout_options_default(this_: Option<&mut z_scout_options_t>)
    ensures
        this_ matches Some(slot) ==> *final(slot) == (z_scout_options_t {
            timeout_ms: SCOUTING_TIMEOUT_DEFAULT_MS,
            what: 3,
        }),
{
    if let Some(slot) = this_ {
        *slot = z_scout_options_t {
            timeout_ms: SCOUTING_TIMEOUT_DEFAULT_MS,
            what: SCOUTING_WHAT_DEFAULT as i32,
        };
    }
}

/// The name of a mask of roles.
pub open spec fn whatami_text(whatami: i32) -> Option<Seq<char>> {
    if whatami == 1 {
        Some("router"@)
    } else if whatami == 2 {
        Some("peer"@)
    } else if whatami == 3 {
        Some("router|peer"@)
    } else if whatami == 4 {
        Some("client"@)
    } else if whatami == 5 {
        Some("router|client"@)
    } else if whatami == 6 {
        Some("peer|client"@)
    } else if whatami == 7 {
        Some("router|peer|client"@)
    } else {
        None
    }
}

/// The names of the roles in a mask, each role once, routers first and clients
/// last.
pub open spec fn role_names(mask: int) -> Seq<Seq<char>> {
    let router = if mask % 2 == 1 {
        seq!["router"@]
    } else {
        Seq::empty()
    };
    let peer = if (mask / 2) % 2 == 1 {
        seq!["peer"@]
    } else {
        Seq::empty()
    };
    let client = if (mask / 4) % 2 == 1 {
        seq!["client"@]
    } else {
        Seq::empty()
    };
    router + peer + client
}

/// A mask is named by its roles, with a bar between each two.
pub proof fn lemma_a_mask_is_named_by_its_roles(whatami: i32)
    requires
        1 <= whatami <= 7,
    ensures
        whatami_text(whatami) == Some(joined(role_names(whatami as int), '|')),
{
    reveal_strlit("router");
    reveal_strlit("peer");
    reveal_strlit("client");
    reveal_strlit("router|peer");
    reveal_strlit("router|client");
    reveal_strlit("peer|client");
    reveal_strlit("router|peer|client");
    reveal_with_fuel(joined, 4);
    let names = role_names(whatami as int);
    let (r, p, c) = ("router"@, "peer"@, "client"@);
    if whatami == 1 {
        assert(names =~= seq![r]);
    } else if whatami == 2 {
        assert(names =~= seq![p]);
    } else if whatami == 4 {
        assert(names =~= seq![c]);
    } else if whatami == 3 {
        assert(names =~= seq![r, p]);
        assert(names.drop_last() =~= seq![r]);
        assert(joined(names, '|') =~= "router|peer"@);
    } else if whatami == 5 {
        assert(names =~= seq![r, c]);
        assert(names.drop_last() =~= seq![r]);
        assert(joined(names, '|') =~= "router|client"@);
    } else if whatami == 6 {
        assert(names =~= seq![p, c]);
        assert(names.drop_last() =~= seq![p]);
        assert(joined(names, '|') =~= "peer|client"@);
    } else {
        assert(names =~= seq![r, p, c]);
        assert(names.drop_last() =~= seq![r, p]);
        assert(names.drop_last().drop_last() =~= seq![r]);
        assert(joined(names, '|') =~= "router|peer|client"@);
    }
}

/// Views the name of a mask of roles. A mask that names no role, or one that there
/// is not, leaves an empty view.
pub fn z_whatami_to_view_string(
    whatami: i32,
    str_out: Option<&mut z_view_string_t<'static>>,
) -> (code: ZResult)
    ensures
        match str_out {
            None => code == Z_ENULL,
            Some(slot) => match whatami_text(whatami) {
                Some(text) => {
                    &&& code == Z_OK
                    &&& *final(slot) is Viewed
                    &&& final(slot).bytes() == Some(encode_utf8(text))
                },
                None => code == Z_EINVAL && *final(slot) is Null,
            },
        },
{
    let slot = match str_out {
        Some(slot) => slot,
        None => {
            return Z_ENULL;
        },
    };
    *slot = SliceRepr::Null;
    let text: &'static str = match whatami {
        1 => "router",
        2 => "peer",
        3 => "router|peer",
        4 => "client",
        5 => "router|client",
        6 => "peer|client",
        7 => "router|peer|client",
        _ => {
            return Z_EINVAL;
        },
    };
    *slot = view_string_over(text);
    Z_OK
}

/// The strings behind an array handle. They never change, so a borrowed one
/// stays what it was.
pub struct StringArrayState {
    pub entries: Vec<z_owned_string_t<'static>>,
}

/// An owned array of strings.
pub type z_owned_string_array_t = Owned<StringArrayState>;

/// A borrowed array: the same slot.
pub type z_loaned_string_array_t = Owned<StringArrayState>;

/// An array on its way to be consumed.
pub type z_moved_string_array_t = Moved<StringArrayState>;

/// Whether an array holds exactly these texts.
pub open spec fn holds_strings(
    entries: Seq<z_owned_string_t<'static>>,
    values: Seq<String>,
) -> bool {
    &&& entries.len() == values.len()
    &&& forall|i: int|
        0 <= i < values.len() ==> {
            &&& #[trigger] entries[i] is Held
            &&& entries[i].bytes() == Some(encode_utf8(values[i]@))
        }
}

impl StringArrayState {
    /// An array of copies of `values`.
    pub fn from_strings(values: &[String]) -> (state: StringArrayState)
        ensures
            holds_strings(state.entries@, values@),
    {
        let mut entries: Vec<z_owned_string_t<'static>> = Vec::new();
        let mut i: usize = 0;
        while i < values.len()
            invariant
                i <= values@.len(),
                holds_strings(entries@, values@.take(i as int)),
            decreases values@.len() - i,
        {
            let entry: z_owned_string_t<'static> = owned_string_from(values[i].as_str().as_bytes());
            let ghost was = entries@;
            entries.push(entry);
            i = i + 1;
            assert forall|k: int| 0 <= k < i implies #[trigger] entries@[k] is Held
                && entries@[k].bytes() == Some(encode_utf8(values@.take(i as int)[k]@)) by {
                if k < i - 1 {
                    assert(entries@[k] == was[k]);
                    assert(values@.take(i as int)[k] == values@.take(i as int - 1)[k]);
                }
            }
        }
        assert(values@.take(i as int) =~= values@);
        StringArrayState { entries }
    }
}

/// The strings of a nullable array.
pub open spec fn strings_of(this_: Option<&z_loaned_string_array_t>) -> Seq<
    z_owned_string_t<'static>,
> {
    match live(this_) {
        Some(state) => state.entries@,
        None => Seq::empty(),
    }
}

/// Borrows an array.
pub fn z_string_array_loan(this_: Option<&z_owned_string_array_t>) -> (loaned: Option<
    &z_loaned_string_array_t,
>)
    ensures
        loaned == this_,
{
    this_
}

/// How many strings an array has.
pub fn z_string_array_len(this_: Option<&z_loaned_string_array_t>) -> (len: usize)
    ensures
        len == strings_of(this_).len(),
{
    match state_of(this_) {
        Some(state) => state.entries.len(),
        None => 0,
    }
}

/// Whether an array has no strings.
pub fn z_string_array_is_empty(this_: Option<&z_loaned_string_array_t>) -> (r: bool)
    ensures
        r == (strings_of(this_).len() == 0),
{
    z_string_array_len(this_) == 0
}

/// Borrows a string of an array. Past the end there is none.
pub fn z_string_array_get(this_: Option<&z_loaned_string_array_t>, index: usize) -> (string: Option<
    &z_loaned_string_t<'static>,
>)
    ensures
        match string {
            Some(string) => index < strings_of(this_).len() && *string == strings_of(
                this_,
            )[index as int],
            None => index >= strings_of(this_).len(),
        },
{
    match state_of(this_) {
        Some(state) => if index < state.entries.len() {
            Some(&state.entries[index])
        } else {
            None
        },
        None => None,
    }
}

/// Whether an owned array is live.
pub fn z_internal_string_array_check(this_: Option<&z_owned_string_array_t>) -> (r: bool)
    ensures
        r == (live(this_) is Some),
{
    is_live(this_)
}

/// Makes an owned array the gravestone.
pub fn z_internal_string_array_null(this_: Option<&mut z_owned_string_array_t>)
    ensures
        this_ matches Some(slot) ==> final(slot).state is None,
{
    gravestone(this_)
}

/// Drops an array.
pub fn z_string_array_drop(this_: Option<&mut z_moved_string_array_t>)
    ensures
        this_ matches Some(moved) ==> final(moved)._this.state is None,
{
    let _ = take(this_);
}

/// A node that answered.
pub struct HelloState {
    pub zid: z_id_t,
    pub whatami: i32,
    pub locators: Vec<String>,
}

/// An owned hello.
pub type z_owned_hello_t = Owned<HelloState>;

/// A borrowed hello: the same slot.
pub type z_loaned_hello_t = Owned<HelloState>;

/// A hello on its way to be consumed.
pub type z_moved_hello_t = Moved<HelloState>;

/// The identity of a node that answered.
pub fn z_hello_zid(this_: Option<&z_loaned_hello_t>) -> (zid: z_id_t)
    ensures
        match live(this_) {
            Some(state) => zid == state.zid,
            None => zid.is_empty(),
        },
{
    match state_of(this_) {
        Some(state) => state.zid,
        None => z_id_t::empty(),
    }
}

/// The role of a node that answered.
pub fn z_hello_whatami(this_: Option<&z_loaned_hello_t>) -> (whatami: i32)
    ensures
        whatami == (match live(this_) {
            Some(state) => state.whatami,
            None => Z_WHATAMI_PEER,
        }),
{
    match state_of(this_) {
        Some(state) => state.whatami,
        None => Z_WHATAMI_PEER,
    }
}

/// Where a node that answered can be reached: an array of its own, which outlives
/// the hello.
pub fn z_hello_locators(
    this_: Option<&z_loaned_hello_t>,
    locators_out: Option<&mut z_owned_string_array_t>,
)
    ensures
        locators_out matches Some(slot) ==> final(slot).state is Some && holds_strings(
            final(slot).state->0.entries@,
            match live(this_) {
                Some(state) => state.locators@,
                None => Seq::empty(),
            },
        ),
{
    if let Some(slot) = locators_out {
        let state = match state_of(this_) {
            Some(state) => StringArrayState::from_strings(state.locators.as_slice()),
            None => StringArrayState { entries: Vec::new() },
        };
        slot.state = Some(state);
    }
}

/// Borrows a hello.
pub fn z_hello_loan(this_: Option<&z_owned_hello_t>) -> (loaned: Option<&z_loaned_hello_t>)
    ensures
        loaned == this_,
{
    this_
}

/// Whether an owned hello is live.
pub fn z_internal_hello_check(this_: Option<&z_owned_hello_t>) -> (r: bool)
    ensures
        r == (live(this_) is Some),
{
    is_live(this_)
}

/// Makes an owned hello the gravestone.
pub fn z_internal_hello_null(this_: Option<&mut z_owned_hello_t>)
    ensures
        this_ matches Some(slot) ==> final(slot).state is None,
{
    gravestone(this_)
}

/// Drops a hello.
pub fn z_hello_drop(this_: Option<&mut z_moved_hello_t>)
    ensures
        this_ matches Some(moved) ==> final(moved)._this.state is None,
{
    let _ = take(this_);
}

/// An owned hello closure.
pub type z_owned_closure_hello_t = CClosure;

/// A hello closure on its way to be consumed.
pub type z_moved_closure_hello_t = MovedClosure;

/// Writes a hello closure from its parts.
pub fn z_closure_hello(
    this_: Option<&mut z_owned_closure_hello_t>,
    call: Option<usize>,
    drop: Option<usize>,
    context: usize,
)
    ensures
        this_ matches Some(slot) ==> *final(slot) == (CClosure { context, call, drop }),
{
    build(this_, call, drop, context)
}

/// Drops a hello closure that was never used.
pub fn z_closure_hello_drop(closure_: Option<&mut z_moved_closure_hello_t>) -> (due: Option<
    DropCall,
>)
    ensures
        match closure_ {
            Some(m) => due == m._this.drop_call() && final(m)._this.is_null(),
            None => due is None,
        },
{
    discard(closure_)
}

/// A node's answer as it comes in.
pub struct WireHello {
    pub zid: z_id_t,
    /// Its role as a mask, where it says so.
    pub whatami: Option<i32>,
    pub locators: Vec<String>,
}

/// What telling of a node takes.
pub struct HelloDelivery {
    pub invocation: Invocation,
    pub hello: HelloState,
}

/// What a scout's closure is called with when a node answers. One that does not
/// say its role is a peer.
pub fn hello_delivery(closure: &CClosure, hello: WireHello) -> (due: Option<HelloDelivery>)
    ensures
        due == (match closure.invocation() {
            Some(invocation) => Some(
                HelloDelivery {
                    invocation,
                    hello: HelloState {
                        zid: hello.zid,
                        whatami: match hello.whatami {
                            Some(w) => w,
                            None => Z_WHATAMI_PEER,
                        },
                        locators: hello.locators,
                    },
                },
            ),
            None => None,
        }),
{
    match closure.invoke() {
        None => None,
        Some(invocation) => {
            let whatami: i32 = match hello.whatami {
                Some(w) => w,
                None => Z_WHATAMI_PEER,
            };
            Some(
                HelloDelivery {
                    invocation,
                    hello: HelloState { zid: hello.zid, whatami, locators: hello.locators },
                },
            )
        },
    }
}

/// Whether `out` is what a configured value comes to: the value without the white
/// space round it.
pub open spec fn configured(value: Option<String>, out: Option<String>) -> bool {
    match (value, out) {
        (Some(value), Some(out)) => is_trimmed(value@, out@),
        (None, None) => true,
        _ => false,
    }
}

fn cfg_get(value: &Option<String>) -> (out: Option<String>)
    ensures
        configured(*value, out),
{
    match value {
        Some(value) => Some(trim(value.as_str())),
        None => None,
    }
}

/// The low byte of a mask.
pub open spec fn low_byte(what: i32) -> int {
    (what as int) % 256
}

fn mask_byte(what: i32) -> (byte: u8)
    ensures
        byte == low_byte(what),
{
    let shifted: u64 = (what as i64 + 4294967296) as u64;
    let byte: u64 = shifted % 256;
    assert((what as int + 4294967296) % 256 == (what as int) % 256) by {
        vstd::arithmetic::div_mod::lemma_mod_multiples_vanish(16777216, what as int, 256);
    }
    byte as u8
}

/// Whether `budget_ms` is how long to scout: as the options say; without options
/// as the configuration says, and by default where it says no number.
pub open spec fn is_budget(
    options: Option<&z_scout_options_t>,
    timeout: Option<String>,
    budget_ms: u64,
) -> bool {
    match (options, timeout) {
        (Some(o), _) => budget_ms == o.timeout_ms,
        (None, None) => budget_ms == SCOUTING_TIMEOUT_DEFAULT_MS,
        (None, Some(value)) => exists|trimmed: Seq<char>| #[trigger]
            is_trimmed(value@, trimmed) && budget_ms == (match written_number(trimmed) {
                Some(n) => n,
                None => SCOUTING_TIMEOUT_DEFAULT_MS,
            }),
    }
}

/// What is scouted for: as the options say, or by default.
pub open spec fn scouted_roles(options: Option<&z_scout_options_t>) -> int {
    match options {
        Some(o) => low_byte(o.what),
        None => SCOUTING_WHAT_DEFAULT as int,
    }
}

/// The roles to scout for and how long.
pub fn resolve_scout_options(
    options: Option<&z_scout_options_t>,
    timeout: &Option<String>,
) -> (r: (u8, u64))
    ensures
        r.0 == scouted_roles(options),
        is_budget(options, *timeout, r.1),
{
    match options {
        Some(o) => (mask_byte(o.what), o.timeout_ms),
        None => {
            let budget_ms: u64 = match cfg_get(timeout) {
                Some(text) => match parse_number(text.as_str()) {
                    Some(n) => n,
                    None => SCOUTING_TIMEOUT_DEFAULT_MS,
                },
                None => SCOUTING_TIMEOUT_DEFAULT_MS,
            };
            (SCOUTING_WHAT_DEFAULT, budget_ms)
        },
    }
}

/// How long is scouted is settled by the options and the configuration.
pub proof fn lemma_the_budget_is_settled(
    options: Option<&z_scout_options_t>,
    timeout: Option<String>,
    a: u64,
    b: u64,
)
    requires
        is_budget(options, timeout, a),
        is_budget(options, timeout, b),
    ensures
        a == b,
{
    if options is None && timeout is Some {
        let text = timeout->0@;
        let s = choose|s: Seq<char>| #[trigger]
            is_trimmed(text, s) && a == (match written_number(s) {
                Some(n) => n,
                None => SCOUTING_TIMEOUT_DEFAULT_MS,
            });
        let t = choose|t: Seq<char>| #[trigger]
            is_trimmed(text, t) && b == (match written_number(t) {
                Some(n) => n,
                None => SCOUTING_TIMEOUT_DEFAULT_MS,
            });
        lemma_trimmed_is_unique(text, s, t);
    }
}

/// A scout to be run.
pub struct ScoutRequest {
    pub group: u32,
    pub port: u16,
    pub what: u8,
    pub zid: Vec<u8>,
    pub budget_ms: u64,
    pub closure: CClosure,
}

/// What a configuration and options say of a scout.
pub struct ScoutPlan {
    pub what: u8,
    pub budget_ms: u64,
    /// Where to scout.
    pub locator: String,
    /// The identity to scout with, where the configuration has one.
    pub zid: Option<String>,
}

/// Whether a plan is what a configuration and options come to.
pub open spec fn is_plan(
    plan: ScoutPlan,
    cfg: Option<ConfigState>,
    options: Option<&z_scout_options_t>,
    default_locator: Seq<char>,
) -> bool {
    &&& plan.what == scouted_roles(options)
    &&& match cfg {
        Some(cfg) => {
            &&& is_budget(options, cfg.scouting_timeout, plan.budget_ms)
            &&& match cfg.multicast_locator {
                Some(value) => is_trimmed(value@, plan.locator@),
                None => plan.locator@ == default_locator,
            }
            &&& configured(cfg.session_zid, plan.zid)
        },
        None => {
            &&& is_budget(options, None, plan.budget_ms)
            &&& plan.locator@ == default_locator
            &&& plan.zid is None
        },
    }
}

/// Works out a scout from a configuration and options.
pub fn scout_plan(
    cfg: &Option<ConfigState>,
    options: Option<&z_scout_options_t>,
    default_locator: &str,
) -> (plan: ScoutPlan)
    ensures
        is_plan(plan, *cfg, options, default_locator@),
{
    match cfg {
        Some(cfg) => {
            let (what, budget_ms) = resolve_scout_options(options, &cfg.scouting_timeout);
            let locator = match cfg_get(&cfg.multicast_locator) {
                Some(locator) => locator,
                None => default_locator.to_owned(),
            };
            ScoutPlan { what, budget_ms, locator, zid: cfg_get(&cfg.session_zid) }
        },
        None => {
            let (what, budget_ms) = resolve_scout_options(options, &None);
            ScoutPlan { what, budget_ms, locator: default_locator.to_owned(), zid: None }
        },
    }
}

/// Whether a reader of texts, given a text, may answer `out`.
pub open spec fn reader_says<T, F: Fn(&str) -> Option<T>>(
    reader: F,
    text: Seq<char>,
    out: Option<T>,
) -> bool {
    exists|t: &str| t@ == text && #[trigger] call_ensures(reader, (t,), out)
}

fn read<T, F: Fn(&str) -> Option<T>>(reader: &F, text: &str) -> (out: Option<T>)
    requires
        forall|t: &str| call_requires(reader, (t,)),
    ensures
        reader_says(*reader, text@, out),
{
    let out = reader(text);
    assert(call_ensures(reader, (text,), out));
    out
}

/// Whether `out` is the identity to scout with: the configured one, where it can
/// be read, and a fresh one otherwise.
pub open spec fn is_scout_zid<Z: Fn(&str) -> Option<Vec<u8>>, F: FnOnce() -> Vec<u8>>(
    parse_zid: Z,
    fresh_zid: F,
    zid: Option<String>,
    out: Vec<u8>,
) -> bool {
    match zid {
        Some(text) => {
            ||| reader_says(parse_zid, text@, Some(out))
            ||| reader_says(parse_zid, text@, None) && call_ensures(fresh_zid, (), out)
        },
        None => call_ensures(fresh_zid, (), out),
    }
}

/// The identity to scout with.
pub fn scout_zid<Z: Fn(&str) -> Option<Vec<u8>>, F: FnOnce() -> Vec<u8>>(
    zid: &Option<String>,
    parse_zid: &Z,
    fresh_zid: F,
) -> (out: Vec<u8>)
    requires
        forall|t: &str| call_requires(parse_zid, (t,)),
        call_requires(fresh_zid, ()),
    ensures
        is_scout_zid(*parse_zid, fresh_zid, *zid, out),
{
    match zid {
        Some(text) => match read(parse_zid, text.as_str()) {
            Some(out) => out,
            None => fresh_zid(),
        },
        None => fresh_zid(),
    }
}

/// Whether a scout asks for what was planned.
pub open spec fn is_planned(request: ScoutRequest, plan: ScoutPlan, closure: CClosure) -> bool {
    &&& request.what == plan.what
    &&& request.budget_ms == plan.budget_ms
    &&& request.closure == closure
}

/// Whether a planned scout was run: at the place that the locator names, and under
/// the identity to scout with.
pub open spec fn ran<
    P: Fn(&str) -> Option<(u32, u16)>,
    Z: Fn(&str) -> Option<Vec<u8>>,
    F: FnOnce() -> Vec<u8>,
    R: FnOnce(ScoutRequest),
>(
    parse_locator: P,
    parse_zid: Z,
    fresh_zid: F,
    run: R,
    plan: ScoutPlan,
    closure: CClosure,
) -> bool {
    exists|request: ScoutRequest|
        {
            &&& is_planned(request, plan, closure)
            &&& reader_says(parse_locator, plan.locator@, Some((request.group, request.port)))
            &&& is_scout_zid(parse_zid, fresh_zid, plan.zid, request.zid)
            &&& #[trigger] call_ensures(run, (request,), ())
        }
}

/// Whether `run` may be handed what was planned: at the place that the locator
/// names, and under the identity to scout with.
pub open spec fn may_run<
    P: Fn(&str) -> Option<(u32, u16)>,
    Z: Fn(&str) -> Option<Vec<u8>>,
    F: FnOnce() -> Vec<u8>,
    R: FnOnce(ScoutRequest),
>(
    parse_locator: P,
    parse_zid: Z,
    fresh_zid: F,
    run: R,
    cfg: Option<ConfigState>,
    options: Option<&z_scout_options_t>,
    default_locator: Seq<char>,
    closure: CClosure,
) -> bool {
    forall|request: ScoutRequest, plan: ScoutPlan|
        {
            &&& #[trigger] is_plan(plan, cfg, options, default_locator)
            &&& is_planned(request, plan, closure)
            &&& reader_says(parse_locator, plan.locator@, Some((request.group, request.port)))
            &&& is_scout_zid(parse_zid, fresh_zid, plan.zid, request.zid)
        } ==> #[trigger] call_requires(run, (request,))
}

/// What scouting comes to: the plan is run, or its locator names no place.
pub open spec fn scouted<
    P: Fn(&str) -> Option<(u32, u16)>,
    Z: Fn(&str) -> Option<Vec<u8>>,
    F: FnOnce() -> Vec<u8>,
    R: FnOnce(ScoutRequest),
>(
    parse_locator: P,
    parse_zid: Z,
    fresh_zid: F,
    run: R,
    cfg: Option<ConfigState>,
    options: Option<&z_scout_options_t>,
    default_locator: Seq<char>,
    closure: CClosure,
    code: ZResult,
) -> bool {
    exists|plan: ScoutPlan|
        {
            &&& #[trigger] is_plan(plan, cfg, options, default_locator)
            &&& if code == Z_OK {
                ran(parse_locator, parse_zid, fresh_zid, run, plan, closure)
            } else {
                code == Z_EINVAL && reader_says(parse_locator, plan.locator@, None)
            }
        }
}

fn scout_with<
    P: Fn(&str) -> Option<(u32, u16)>,
    Z: Fn(&str) -> Option<Vec<u8>>,
    F: FnOnce() -> Vec<u8>,
    R: FnOnce(ScoutRequest),
>(
    cfg: Option<ConfigState>,
    options: Option<&z_scout_options_t>,
    closure: CClosure,
    default_locator: &str,
    parse_locator: &P,
    parse_zid: &Z,
    fresh_zid: F,
    run: R,
) -> (code: ZResult)
    requires
        forall|t: &str| call_requires(parse_locator, (t,)),
        forall|t: &str| call_requires(parse_zid, (t,)),
        call_requires(fresh_zid, ()),
        may_run(
            *parse_locator,
            *parse_zid,
            fresh_zid,
            run,
            cfg,
            options,
            default_locator@,
            closure,
        ),
    ensures
        scouted(
            *parse_locator,
            *parse_zid,
            fresh_zid,
            run,
            cfg,
            options,
            default_locator@,
            closure,
            code,
        ),
{
    let plan = scout_plan(&cfg, options, default_locator);
    let zid = scout_zid(&plan.zid, parse_zid, fresh_zid);
    match read(parse_locator, plan.locator.as_str()) {
        None => Z_EINVAL,
        Some((group, port)) => {
            let request = ScoutRequest {
                group,
                port,
                what: plan.what,
                zid,
                budget_ms: plan.budget_ms,
                closure,
            };
            let ghost asked = request;
            run(request);
            assert(call_ensures(run, (asked,), ()));
            assert(ran(*parse_locator, *parse_zid, fresh_zid, run, plan, closure));
            Z_OK
        },
    }
}

/// Scouts. The configuration and the closure are consumed, and the closure's drop
/// is due once at the end, after the last node was told of, also where nothing
/// could be scouted. `parse_locator` reads a multicast group and a port,
/// `parse_zid` an identity, `fresh_zid` makes one up, and `run` scouts for as long
/// as it is told to.
pub fn z_scout<
    P: Fn(&str) -> Option<(u32, u16)>,
    Z: Fn(&str) -> Option<Vec<u8>>,
    F: FnOnce() -> Vec<u8>,
    R: FnOnce(ScoutRequest),
>(
    config: Option<&mut z_moved_config_t>,
    callback: Option<&mut z_moved_closure_hello_t>,
    options: Option<&z_scout_options_t>,
    default_locator: &str,
    parse_locator: &P,
    parse_zid: &Z,
    fresh_zid: F,
    run: R,
) -> (r: (ZResult, Option<DropCall>))
    requires
        callback is Some ==> {
            &&& forall|t: &str| call_requires(parse_locator, (t,))
            &&& forall|t: &str| call_requires(parse_zid, (t,))
            &&& call_requires(fresh_zid, ())
        },
        callback matches Some(moved) ==> may_run(
            *parse_locator,
            *parse_zid,
            fresh_zid,
            run,
            match config {
                Some(cfg) => cfg._this.state,
                None => None,
            },
            options,
            default_locator@,
            moved._this,
        ),
    ensures
        match (config, callback) {
            (Some(cfg), Some(moved)) => {
                &&& final(cfg)._this.state is None
                &&& final(moved)._this.is_null()
                &&& r.1 == moved._this.drop_call()
                &&& scouted(
                    *parse_locator,
                    *parse_zid,
                    fresh_zid,
                    run,
                    cfg._this.state,
                    options,
                    default_locator@,
                    moved._this,
                    r.0,
                )
            },
            (None, Some(moved)) => {
                &&& final(moved)._this.is_null()
                &&& r.1 == moved._this.drop_call()
                &&& scouted(
                    *parse_locator,
                    *parse_zid,
                    fresh_zid,
                    run,
                    None,
                    options,
                    default_locator@,
                    moved._this,
                    r.0,
                )
            },
            (Some(cfg), None) => r == (Z_ENULL, None::<DropCall>) && *final(cfg) == *cfg,
            (None, None) => r == (Z_ENULL, None::<DropCall>),
        },
{
    let closure = match callback {
        Some(moved) => adopt(moved),
        None => {
            return (Z_ENULL, None);
        },
    };
    let cfg = take(config);
    let code: ZResult = scout_with(
        cfg,
        options,
        closure,
        default_locator,
        parse_locator,
        parse_zid,
        fresh_zid,
        run,
    );
    (code, closure.dropping())
}

} // verus!
