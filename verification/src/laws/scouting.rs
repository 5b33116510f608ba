//! Laws of scouting.

use vstd::prelude::*;
use vstd::utf8::encode_utf8;

use crate::closure::CClosure;
use crate::closure::DropCall;
use crate::closure::MovedClosure;
use crate::meta::z_id_t;
use crate::result::ZResult;
use crate::scout::hello_delivery;
use crate::scout::lemma_a_mask_is_named_by_its_roles;
use crate::scout::resolve_scout_options;
use crate::scout::scout_plan;
use crate::scout::scout_zid;
use crate::scout::z_closure_hello;
use crate::scout::z_closure_hello_drop;
use crate::scout::z_hello_locators;
use crate::scout::z_hello_whatami;
use crate::scout::z_hello_zid;
use crate::scout::z_loaned_hello_t;
use crate::scout::z_loaned_string_array_t;
use crate::scout::z_owned_string_array_t;
use crate::scout::z_scout;
use crate::scout::z_scout_options_default;
use crate::scout::z_scout_options_t;
use crate::scout::z_string_array_get;
use crate::scout::z_string_array_is_empty;
use crate::scout::z_string_array_len;
use crate::scout::z_whatami_to_view_string;
use crate::scout::HelloDelivery;
use crate::scout::ScoutPlan;
use crate::scout::ScoutRequest;
use crate::scout::WireHello;
use crate::session::z_moved_config_t;
use crate::session::ConfigState;
use crate::slice::SliceRepr;
use crate::text::is_trimmed;
use crate::text::joined;
use crate::text::lemma_trimmed_is_unique;
use crate::text::parse_number;
use crate::text::trim;

verus! {

/// A mask of roles is named by the names of its roles, routers first and clients
/// last, with a bar between each two. A number that is no such mask has no name.
pub proof fn lemma_a_role_mask_has_its_name(
    whatami: i32,
    slot: &mut SliceRepr<'static>,
    code: ZResult,
)
    requires
        call_ensures(z_whatami_to_view_string, (whatami, Some(slot)), code),
    ensures
        code == 0 <==> 1 <= whatami <= 7,
        code != 0 ==> code == -1 && *final(slot) is Null,
        code == 0 ==> {
            let router = if whatami as int % 2 == 1 {
                seq![seq!['r', 'o', 'u', 't', 'e', 'r']]
            } else {
                Seq::empty()
            };
            let peer = if (whatami as int / 2) % 2 == 1 {
                seq![seq!['p', 'e', 'e', 'r']]
            } else {
                Seq::empty()
            };
            let client = if (whatami as int / 4) % 2 == 1 {
                seq![seq!['c', 'l', 'i', 'e', 'n', 't']]
            } else {
                Seq::empty()
            };
            &&& *final(slot) is Viewed
            &&& final(slot)->Viewed_0@ == encode_utf8(joined(router + peer + client, '|'))
        },
{
    if 1 <= whatami <= 7 {
        reveal_strlit("router");
        reveal_strlit("peer");
        reveal_strlit("client");
        assert("router"@ =~= seq!['r', 'o', 'u', 't', 'e', 'r']);
        assert("peer"@ =~= seq!['p', 'e', 'e', 'r']);
        assert("client"@ =~= seq!['c', 'l', 'i', 'e', 'n', 't']);
        lemma_a_mask_is_named_by_its_roles(whatami);
    }
}

/// By default routers and peers are scouted for, for a second.
pub proof fn lemma_the_default_scout(options: &mut z_scout_options_t)
    requires
        call_ensures(z_scout_options_default, (Some(options),), ()),
    ensures
        final(options).timeout_ms == 1000,
        final(options).what == 3,
{
}

/// With options a scout lasts as long as they say and looks for the roles in the low
/// byte of their mask. Without options it looks for routers and peers, for as long as
/// the configuration says in digits, and else for a second.
pub proof fn lemma_a_scout_lasts_as_long_as_was_asked(
    options: Option<&z_scout_options_t>,
    timeout: Option<String>,
    r: (u8, u64),
    text: &str,
    trimmed: String,
    read: Option<u64>,
)
    requires
        call_ensures(resolve_scout_options, (options, &timeout), r),
        timeout is Some ==> text@ == timeout->0@,
        call_ensures(trim, (text,), trimmed),
        exists|t: &str| t@ == trimmed@ && #[trigger] call_ensures(parse_number, (t,), read),
    ensures
        options matches Some(o) ==> r.1 == o.timeout_ms && (o.what - r.0) % 256 == 0,
        options matches Some(o) ==> (0 <= o.what <= 255 ==> r.0 == o.what),
        options is None ==> r.0 == 3,
        options is None && timeout is None ==> r.1 == 1000,
        options is None && timeout is Some ==> r.1 == (if read is Some {
            read->0
        } else {
            1000
        }),
{
    if options is None && timeout is Some {
        let other = choose|other: Seq<char>| #[trigger]
            is_trimmed(text@, other) && r.1 == (match crate::text::written_number(other) {
                Some(n) => n,
                None => 1000u64,
            });
        lemma_trimmed_is_unique(text@, other, trimmed@);
    }
}

/// A plan has the roles and the time of the options, the configured place and
/// identity without the white space round them, and the default place where none is
/// configured.
pub proof fn lemma_a_plan_is_what_was_configured(
    cfg: Option<ConfigState>,
    options: Option<&z_scout_options_t>,
    default_locator: &str,
    plan: ScoutPlan,
    place: &str,
    trimmed_place: String,
    zid: &str,
    trimmed_zid: String,
)
    requires
        call_ensures(scout_plan, (&cfg, options, default_locator), plan),
        call_ensures(trim, (place,), trimmed_place),
        call_ensures(trim, (zid,), trimmed_zid),
        cfg is Some && cfg->0.multicast_locator is Some ==> place@
            == cfg->0.multicast_locator->0@,
        cfg is Some && cfg->0.session_zid is Some ==> zid@ == cfg->0.session_zid->0@,
    ensures
        options matches Some(o) ==> plan.budget_ms == o.timeout_ms && (o.what - plan.what) % 256
            == 0,
        options is None ==> plan.what == 3,
        options is None && (cfg is None || cfg->0.scouting_timeout is None) ==> plan.budget_ms
            == 1000,
        cfg is None || cfg->0.multicast_locator is None ==> plan.locator@ == default_locator@,
        cfg is Some && cfg->0.multicast_locator is Some ==> plan.locator@ == trimmed_place@,
        plan.zid is Some == (cfg is Some && cfg->0.session_zid is Some),
        plan.zid is Some ==> plan.zid->0@ == trimmed_zid@,
{
    if cfg is Some && cfg->0.multicast_locator is Some {
        lemma_trimmed_is_unique(place@, plan.locator@, trimmed_place@);
    }
    if cfg is Some && cfg->0.session_zid is Some {
        lemma_trimmed_is_unique(zid@, plan.zid->0@, trimmed_zid@);
    }
}

/// The identity to scout with is the configured one, where it can be read, and a
/// fresh one otherwise.
pub proof fn lemma_a_scout_has_the_configured_identity<
    Z: Fn(&str) -> Option<Vec<u8>>,
    F: FnOnce() -> Vec<u8>,
>(zid: Option<String>, parse_zid: &Z, fresh_zid: F, out: Vec<u8>)
    requires
        call_ensures(scout_zid::<Z, F>, (&zid, parse_zid, fresh_zid), out),
    ensures
        zid is None ==> call_ensures(fresh_zid, (), out),
        zid is Some ==> exists|t: &str, read: Option<Vec<u8>>|
            {
                &&& #[trigger] call_ensures(*parse_zid, (t,), read)
                &&& t@ == zid->0@
                &&& read is Some ==> read->0 == out
                &&& read is None ==> call_ensures(fresh_zid, (), out)
            },
{
}

/// A scout runs at the place its locator names, for the roles and the time that were
/// asked for, and tells the caller's closure, whose drop is due at the end in any
/// case. A locator that names no place is refused. The configuration is consumed.
pub proof fn lemma_a_scout_runs_as_planned<
    P: Fn(&str) -> Option<(u32, u16)>,
    Z: Fn(&str) -> Option<Vec<u8>>,
    F: FnOnce() -> Vec<u8>,
    R: FnOnce(ScoutRequest),
>(
    config: &mut z_moved_config_t,
    callback: &mut MovedClosure,
    options: Option<&z_scout_options_t>,
    default_locator: &str,
    parse_locator: &P,
    parse_zid: &Z,
    fresh_zid: F,
    run: R,
    r: (ZResult, Option<DropCall>),
    place: &str,
    trimmed: String,
    zid: &str,
    trimmed_zid: String,
    timeout: &str,
    trimmed_timeout: String,
    read: Option<u64>,
)
    requires
        call_ensures(
            z_scout::<P, Z, F, R>,
            (
                Some(config),
                Some(callback),
                options,
                default_locator,
                parse_locator,
                parse_zid,
                fresh_zid,
                run,
            ),
            r,
        ),
        call_ensures(trim, (place,), trimmed),
        call_ensures(trim, (zid,), trimmed_zid),
        call_ensures(trim, (timeout,), trimmed_timeout),
        exists|t: &str|
            t@ == trimmed_timeout@ && #[trigger] call_ensures(parse_number, (t,), read),
        old(config)._this.state is Some && old(config)._this.state->0.session_zid is Some ==> zid@
            == old(config)._this.state->0.session_zid->0@,
        old(config)._this.state is Some && old(config)._this.state->0.scouting_timeout is Some
            ==> timeout@ == old(config)._this.state->0.scouting_timeout->0@,
        old(config)._this.state is Some && old(config)._this.state->0.multicast_locator is Some
            ==> place@ == old(config)._this.state->0.multicast_locator->0@,
    ensures
        final(config)._this.state is None,
        final(callback)._this.call is None && final(callback)._this.drop is None,
        r.1 is Some == old(callback)._this.drop is Some,
        r.1 is Some ==> r.1->0.drop == old(callback)._this.drop->0 && r.1->0.context == old(callback)._this.context,
        r.0 == 0 || r.0 == -1,
        ({
            let configured = old(config)._this.state is Some && old(config)._this.state->0.multicast_locator is Some;
            let locator = if configured {
                trimmed@
            } else {
                default_locator@
            };
            &&& r.0 == -1 ==> exists|t: &str|
                t@ == locator && #[trigger] call_ensures(*parse_locator, (t,), None)
            &&& r.0 == 0 ==> exists|t: &str, request: ScoutRequest|
                {
                    &&& #[trigger] call_ensures(run, (request,), ())
                    &&& #[trigger] call_ensures(
                        *parse_locator,
                        (t,),
                        Some((request.group, request.port)),
                    )
                    &&& t@ == locator
                    &&& request.closure == old(callback)._this
                    &&& options matches Some(o) ==> request.budget_ms == o.timeout_ms
                    &&& options matches Some(o) ==> (o.what - request.what) % 256 == 0
                    &&& options is None ==> request.what == 3
                    &&& options is None && old(config)._this.state is Some
                        && old(config)._this.state->0.scouting_timeout is Some
                        ==> request.budget_ms == (if read is Some {
                        read->0
                    } else {
                        1000
                    })
                    &&& old(config)._this.state is Some
                        && old(config)._this.state->0.session_zid is Some ==> exists|
                        z: &str,
                        parsed: Option<Vec<u8>>,
                    |
                        {
                            &&& #[trigger] call_ensures(*parse_zid, (z,), parsed)
                            &&& z@ == trimmed_zid@
                            &&& parsed is Some ==> parsed->0 == request.zid
                            &&& parsed is None ==> call_ensures(fresh_zid, (), request.zid)
                        }
                    &&& options is None && (old(config)._this.state is None || old(config)._this.state->0.scouting_timeout is None) ==> request.budget_ms == 1000
                    &&& old(config)._this.state is None || old(config)._this.state->0.session_zid is None ==> call_ensures(
                        fresh_zid,
                        (),
                        request.zid,
                    )
                }
        }),
{
    let cfg = old(config)._this.state;
    let plan = choose|plan: ScoutPlan|
        {
            &&& #[trigger] crate::scout::is_plan(plan, cfg, options, default_locator@)
            &&& if r.0 == 0 {
                crate::scout::ran(
                    *parse_locator,
                    *parse_zid,
                    fresh_zid,
                    run,
                    plan,
                    old(callback)._this,
                )
            } else {
                r.0 == -1 && crate::scout::reader_says(*parse_locator, plan.locator@, None)
            }
        };
    if cfg is Some && cfg->0.multicast_locator is Some {
        lemma_trimmed_is_unique(place@, plan.locator@, trimmed@);
    }
    if cfg is Some && cfg->0.session_zid is Some {
        lemma_trimmed_is_unique(zid@, plan.zid->0@, trimmed_zid@);
    }
    if options is None && cfg is Some && cfg->0.scouting_timeout is Some {
        let other = choose|other: Seq<char>| #[trigger]
            is_trimmed(timeout@, other) && plan.budget_ms == (
            match crate::text::written_number(other) {
                Some(n) => n,
                None => 1000u64,
            });
        lemma_trimmed_is_unique(timeout@, other, trimmed_timeout@);
    }
    if r.0 == 0 {
        let request = choose|request: ScoutRequest|
            {
                &&& crate::scout::is_planned(request, plan, old(callback)._this)
                &&& crate::scout::reader_says(
                    *parse_locator,
                    plan.locator@,
                    Some((request.group, request.port)),
                )
                &&& crate::scout::is_scout_zid(*parse_zid, fresh_zid, plan.zid, request.zid)
                &&& #[trigger] call_ensures(run, (request,), ())
            };
        let t = choose|t: &str|
            t@ == plan.locator@ && #[trigger] call_ensures(
                *parse_locator,
                (t,),
                Some((request.group, request.port)),
            );
        assert(call_ensures(run, (request,), ()));
        assert(call_ensures(*parse_locator, (t,), Some((request.group, request.port))));
    }
}

/// A node's answer is told of as it came in. One that does not say its role is a
/// peer.
pub proof fn lemma_an_answer_is_told_of_as_it_came(
    closure: CClosure,
    hello: WireHello,
    due: Option<HelloDelivery>,
)
    requires
        call_ensures(hello_delivery, (&closure, hello), due),
    ensures
        due is Some == closure.call is Some,
        due matches Some(d) ==> {
            &&& Some(d.invocation.call) == closure.call
            &&& d.invocation.context == closure.context
            &&& d.hello.zid == hello.zid
            &&& d.hello.locators == hello.locators
            &&& hello.whatami is Some ==> d.hello.whatami == hello.whatami->0
            &&& hello.whatami is None ==> d.hello.whatami == 2
        },
{
}

/// What is read of an answer is what it holds; its places are as many strings, in
/// order. A dead answer is a peer without identity and places.
pub proof fn lemma_an_answer_is_read_as_it_is(
    this_: Option<&z_loaned_hello_t>,
    zid: z_id_t,
    whatami: i32,
    slot: &mut z_owned_string_array_t,
)
    requires
        call_ensures(z_hello_zid, (this_,), zid),
        call_ensures(z_hello_whatami, (this_,), whatami),
        call_ensures(z_hello_locators, (this_, Some(slot)), ()),
    ensures
        final(slot).state is Some,
        if this_ is Some && this_->0.state is Some {
            let hello = this_->0.state->0;
            let entries = final(slot).state->0.entries@;
            &&& zid == hello.zid
            &&& whatami == hello.whatami
            &&& entries.len() == hello.locators@.len()
            &&& forall|i: int|
                0 <= i < entries.len() ==> #[trigger] entries[i] is Held && entries[i]->Held_0@
                    == encode_utf8(hello.locators@[i]@)
        } else {
            &&& forall|i: int| 0 <= i < 16 ==> #[trigger] zid.id@[i] == 0
            &&& whatami == 2
            &&& final(slot).state->0.entries@.len() == 0
        },
{
}

/// An array gives each of its strings by its place, and none past its end.
pub proof fn lemma_an_array_is_read_by_place<'a>(
    this_: Option<&'a z_loaned_string_array_t>,
    len: usize,
    empty: bool,
    index: usize,
    string: Option<&'a SliceRepr<'static>>,
)
    requires
        call_ensures(z_string_array_len, (this_,), len),
        call_ensures(z_string_array_is_empty, (this_,), empty),
        call_ensures(z_string_array_get, (this_, index), string),
    ensures
        this_ is Some && this_->0.state is Some ==> len == this_->0.state->0.entries@.len(),
        this_ is None || this_->0.state is None ==> len == 0,
        empty == (len == 0),
        string is Some == (index < len),
        string is Some ==> *string->0 == this_->0.state->0.entries@[index as int],
{
}

/// A hello closure is written as it is given, and dropping it calls its drop function
/// once.
pub proof fn lemma_a_hello_closure_is_built_and_dropped(
    built: &mut CClosure,
    call: Option<usize>,
    drop: Option<usize>,
    context: usize,
    moved: &mut MovedClosure,
    due: Option<DropCall>,
)
    requires
        call_ensures(z_closure_hello, (Some(built), call, drop, context), ()),
        call_ensures(z_closure_hello_drop, (Some(moved),), due),
    ensures
        final(built).call == call && final(built).drop == drop && final(built).context == context,
        due is Some == old(moved)._this.drop is Some,
        due is Some ==> due->0.drop == old(moved)._this.drop->0 && due->0.context == old(moved)._this.context,
        final(moved)._this.call is None && final(moved)._this.drop is None,
{
}

} // verus!
