//! Orders to units whose kind needs an activated account: the client
//! refuses them, with a news line, unless the player is registered and the
//! server's activation rule lets the player pass.

use vstd::prelude::*;

verus! {

/// What the player's account allows when an order is given.
#[derive(Clone, Copy, Debug, PartialEq, Eq, Structural)]
pub struct SourceCommandActivationAccess {
    pub registered: bool,
    pub server_activation_passed: bool,
}

/// The server lets a player pass when it asks for no login, ignores
/// activation, the player is a logged-in bot, or has logged in with an
/// activated account.
pub open spec fn spec_server_activation_passed(
    require_login: bool,
    ignore_activation: bool,
    bot_logged_in: bool,
    logged_in: bool,
    activated: bool,
) -> bool {
    !require_login || ignore_activation || bot_logged_in || (logged_in && activated)
}

/// The account's access, from the registration state, the server's
/// settings and the local player's login.
pub fn source_command_activation_access(
    registered: bool,
    require_login: bool,
    ignore_activation: bool,
    bot_logged_in: bool,
    logged_in: bool,
    activated: bool,
) -> (r: SourceCommandActivationAccess)
    ensures
        r.registered == registered,
        r.server_activation_passed == spec_server_activation_passed(
            require_login,
            ignore_activation,
            bot_logged_in,
            logged_in,
            activated,
        ),
{
    SourceCommandActivationAccess {
        registered,
        server_activation_passed: !require_login || ignore_activation || bot_logged_in || (logged_in && activated),
    }
}

/// The news line of an order refused to an unregistered player.
pub open spec fn spec_registration_required_message() -> Seq<char> {
    "move unit error: registration required, please visit www.nighsoft.com"@
}

/// The news line of an order refused to a player the server does not let
/// pass.
pub open spec fn spec_activation_required_message() -> Seq<char> {
    "move unit error: activation required, please visit www.nighsoft.com"@
}

/// The news line of an order refused to an unregistered player.
pub fn registration_required_message() -> (r: &'static str)
    ensures
        r@ == spec_registration_required_message(),
{
    "move unit error: registration required, please visit www.nighsoft.com"
}

/// The news line of an order refused to a player the server does not let
/// pass.
pub fn activation_required_message() -> (r: &'static str)
    ensures
        r@ == spec_activation_required_message(),
{
    "move unit error: activation required, please visit www.nighsoft.com"
}

/// Why an order to a unit is refused, if it is: registration is checked
/// before the server's rule, and units that need no activation are never
/// refused.
pub open spec fn spec_activation_rejection(requires_activation: bool, access: SourceCommandActivationAccess) -> Option<
    Seq<char>,
> {
    if !requires_activation {
        None
    } else if !access.registered {
        Some(spec_registration_required_message())
    } else if !access.server_activation_passed {
        Some(spec_activation_required_message())
    } else {
        None
    }
}

/// Why an order to a unit whose kind does (`requires_activation`) or does
/// not need an activated account is refused, if it is.
pub fn source_activation_rejection(requires_activation: bool, access: SourceCommandActivationAccess) -> (r: Option<
    &'static str,
>)
    ensures
        match spec_activation_rejection(requires_activation, access) {
            Some(message) => r is Some && r->0@ == message,
            None => r is None,
        },
{
    if !requires_activation {
        return None;
    }
    if !access.registered {
        return Some(registration_required_message());
    }
    if !access.server_activation_passed {
        return Some(activation_required_message());
    }
    None
}

/// Whether the object `ref_id` needs an activated account, by the last entry
/// for it among `needs`; `None` where the object is not on the map.
pub open spec fn spec_activation_need_of(ref_id: u32, needs: Seq<(u32, bool)>) -> Option<bool>
    decreases needs.len(),
{
    if needs.len() == 0 {
        None
    } else if needs.last().0 == ref_id {
        Some(needs.last().1)
    } else {
        spec_activation_need_of(ref_id, needs.drop_last())
    }
}

/// The refs that an order keeps, in their order, and the news lines of the
/// refused ones, in their order: a ref that is not on the map is dropped
/// without a line.
pub open spec fn spec_filter_activation_refs(
    refs: Seq<u32>,
    needs: Seq<(u32, bool)>,
    access: SourceCommandActivationAccess,
) -> (Seq<u32>, Seq<Seq<char>>)
    decreases refs.len(),
{
    if refs.len() == 0 {
        (Seq::empty(), Seq::empty())
    } else {
        let (kept, news) = spec_filter_activation_refs(refs.drop_last(), needs, access);
        let ref_id = refs.last();
        match spec_activation_need_of(ref_id, needs) {
            None => (kept, news),
            Some(need) => match spec_activation_rejection(need, access) {
                Some(message) => (kept, news.push(message)),
                None => (kept.push(ref_id), news),
            },
        }
    }
}

/// Only units that need an activated account are ever refused: an order
/// whose refs are all on the map and need no activation keeps every ref, in
/// order, and writes no news, whatever the account.
pub proof fn lemma_unrestricted_refs_are_kept(
    refs: Seq<u32>,
    needs: Seq<(u32, bool)>,
    access: SourceCommandActivationAccess,
)
    requires
        forall|i: int| 0 <= i < refs.len() ==> spec_activation_need_of(#[trigger] refs[i], needs) == Some(false),
    ensures
        spec_filter_activation_refs(refs, needs, access).0 == refs,
        spec_filter_activation_refs(refs, needs, access).1.len() == 0,
    decreases refs.len(),
{
    if refs.len() > 0 {
        let rest = refs.drop_last();
        assert forall|i: int| 0 <= i < rest.len() implies spec_activation_need_of(#[trigger] rest[i], needs) == Some(
            false,
        ) by {
            assert(rest[i] == refs[i]);
        }
        lemma_unrestricted_refs_are_kept(rest, needs, access);
        assert(spec_activation_need_of(refs[refs.len() - 1], needs) == Some(false));
        assert(rest.push(refs.last()) =~= refs);
    }
}

/// Whether the object `ref_id` needs an activated account, by the last entry
/// for it among `needs`.
fn activation_need_of(ref_id: u32, needs: &[(u32, bool)]) -> (r: Option<bool>)
    ensures
        r == spec_activation_need_of(ref_id, needs@),
{
    let mut found: Option<bool> = None;
    let mut i: usize = 0;
    while i < needs.len()
        invariant
            i <= needs@.len(),
            found == spec_activation_need_of(ref_id, needs@.take(i as int)),
        decreases needs@.len() - i,
    {
        proof {
            assert(needs@.take(i + 1).drop_last() =~= needs@.take(i as int));
        }
        let (id, need) = needs[i];
        if id == ref_id {
            found = Some(need);
        }
        i = i + 1;
    }
    proof {
        assert(needs@.take(needs@.len() as int) =~= needs@);
    }
    found
}

/// Filters the refs of an order by the account's access. `needs` pairs
/// each object on the map with whether its kind needs an activated
/// account. Returns the kept refs and the news lines of the refused ones.
pub fn source_filter_activation_refs(
    refs: &[u32],
    needs: &[(u32, bool)],
    access: SourceCommandActivationAccess,
) -> (r: (Vec<u32>, Vec<&'static str>))
    ensures
        r.0@ == spec_filter_activation_refs(refs@, needs@, access).0,
        r.1@.len() == spec_filter_activation_refs(refs@, needs@, access).1.len(),
        forall|k: int|
            0 <= k < r.1@.len() ==> #[trigger] r.1@[k]@ == spec_filter_activation_refs(refs@, needs@, access).1[k],
{
    let mut kept: Vec<u32> = Vec::new();
    let mut news: Vec<&'static str> = Vec::new();
    let mut i: usize = 0;
    while i < refs.len()
        invariant
            i <= refs@.len(),
            kept@ == spec_filter_activation_refs(refs@.take(i as int), needs@, access).0,
            news@.len() == spec_filter_activation_refs(refs@.take(i as int), needs@, access).1.len(),
            forall|k: int|
                0 <= k < news@.len() ==> #[trigger] news@[k]@ == spec_filter_activation_refs(
                    refs@.take(i as int),
                    needs@,
                    access,
                ).1[k],
        decreases refs@.len() - i,
    {
        proof {
            assert(refs@.take(i + 1).drop_last() =~= refs@.take(i as int));
            assert(refs@.take(i + 1).last() == refs@[i as int]);
        }
        let ref_id = refs[i];
        match activation_need_of(ref_id, needs) {
            None => {},
            Some(need) => match source_activation_rejection(need, access) {
                Some(message) => {
                    news.push(message);
                },
                None => {
                    kept.push(ref_id);
                },
            },
        }
        i = i + 1;
    }
    proof {
        assert(refs@.take(refs@.len() as int) =~= refs@);
    }
    (kept, news)
}

} // verus!
