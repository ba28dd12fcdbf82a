//! Which calls are let through: for everyone, and for each kind of proxy.

use crate::calls::{ProxyCall, RuntimeCall};
use vstd::prelude::*;

verus! {

/// The filter that every call has to pass.
///
/// It stops the calls around anonymous proxies, as these make reserved balances
/// inconsistent.
pub struct NormalFilter;

impl NormalFilter {
    /// The calls that are stopped: those that spawn or remove an anonymous proxy,
    /// and the one that removes all proxies at once.
    pub open spec fn stops(call: RuntimeCall) -> bool {
        ||| call == RuntimeCall::Proxy(ProxyCall::CreatePure)
        ||| call == RuntimeCall::Proxy(ProxyCall::KillPure)
        ||| call == RuntimeCall::Proxy(ProxyCall::RemoveProxies)
    }

    /// Whether a call may be dispatched at all.
    pub fn contains(c: &RuntimeCall) -> (passes: bool)
        ensures
            passes == !Self::stops(*c),
    {
        match c {
            RuntimeCall::Proxy(method) => !matches!(
                method,
                ProxyCall::CreatePure | ProxyCall::KillPure | ProxyCall::RemoveProxies
            ),
            _ => true,
        }
    }
}

/// The kinds of proxying that an account can grant.
#[derive(Clone, Copy, PartialEq, Eq, PartialOrd, Ord, Structural, Debug)]
pub enum ProxyType {
    /// Allows to proxy all calls.
    Any,
    /// Allows all non-transfer calls.
    NonTransfer,
    /// Allows to finish the proxy.
    CancelProxy,
    /// Allows to operate with the collators list (invulnerables, candidates, etc.).
    Collator,
}

impl Default for ProxyType {
    /// A proxy that is not restricted.
    fn default() -> (proxy_type: ProxyType)
        ensures
            proxy_type == ProxyType::Any,
    {
        ProxyType::Any
    }
}

impl ProxyType {
    /// The calls that a proxy of this kind may make.
    pub open spec fn allows(self, call: RuntimeCall) -> bool {
        match self {
            ProxyType::Any => true,
            ProxyType::NonTransfer => !call.is_transfer(),
            ProxyType::CancelProxy => {
                ||| call == RuntimeCall::Proxy(ProxyCall::RejectAnnouncement)
                ||| call == RuntimeCall::Multisig
            },
            ProxyType::Collator => {
                ||| call == RuntimeCall::CollatorSelection
                ||| call == RuntimeCall::Multisig
            },
        }
    }

    /// Everything that `other` allows is allowed by `self` too.
    pub open spec fn covers(self, other: ProxyType) -> bool {
        forall|call: RuntimeCall| other.allows(call) ==> #[trigger] self.allows(call)
    }

    /// Whether a proxy of this kind may make the call.
    pub fn filter(&self, c: &RuntimeCall) -> (allowed: bool)
        ensures
            allowed == self.allows(*c),
    {
        match self {
            ProxyType::Any => true,
            ProxyType::NonTransfer => !c.transfers(),
            ProxyType::CancelProxy => matches!(
                c,
                RuntimeCall::Proxy(ProxyCall::RejectAnnouncement) | RuntimeCall::Multisig
            ),
            ProxyType::Collator => {
                matches!(c, RuntimeCall::CollatorSelection | RuntimeCall::Multisig)
            },
        }
    }
}

/// One kind of proxy covers another exactly if they are the same, the first is
/// unrestricted, or the first is restricted to non-transfer calls and the second
/// is not unrestricted. So the kinds form a tree: an unrestricted proxy covers
/// all, a non-transfer proxy covers the two narrow ones, and these two do not
/// cover each other.
pub proof fn law_proxy_types_cover(a: ProxyType, b: ProxyType)
    ensures
        a.covers(b) <==> a == b || a is Any || (a is NonTransfer && !(b is Any)),
{
    let transfer = RuntimeCall::Balances(crate::calls::BalancesCall::TransferAll);
    let reject = RuntimeCall::Proxy(ProxyCall::RejectAnnouncement);
    let collators = RuntimeCall::CollatorSelection;
    let other = RuntimeCall::Other;
    assert(b.allows(transfer) && !a.allows(transfer) ==> !a.covers(b));
    assert(b.allows(reject) && !a.allows(reject) ==> !a.covers(b));
    assert(b.allows(collators) && !a.allows(collators) ==> !a.covers(b));
    assert(b.allows(other) && !a.allows(other) ==> !a.covers(b));
}

/// No proxy but an unrestricted one can make a transfer call.
pub proof fn law_only_unrestricted_proxies_transfer(proxy_type: ProxyType, call: RuntimeCall)
    requires
        call.is_transfer(),
    ensures
        proxy_type.allows(call) <==> proxy_type is Any,
{
}

/// A non-transfer proxy can make every call that is not a transfer call.
pub proof fn law_non_transfer_proxies_make_all_other_calls(call: RuntimeCall)
    requires
        !call.is_transfer(),
    ensures
        ProxyType::NonTransfer.allows(call),
{
}

/// What both narrow kinds of proxy allow is the multisig pallet, and nothing else.
pub proof fn law_narrow_proxies_share_multisig(call: RuntimeCall)
    ensures
        ProxyType::CancelProxy.allows(call) && ProxyType::Collator.allows(call) <==> call
            == RuntimeCall::Multisig,
{
}

/// A call that a narrow kind of proxy allows is never stopped for everyone.
pub proof fn law_narrow_proxy_calls_pass(proxy_type: ProxyType, call: RuntimeCall)
    requires
        proxy_type is CancelProxy || proxy_type is Collator,
        proxy_type.allows(call),
    ensures
        !NormalFilter::stops(call),
{
}

/// Only calls of the proxy pallet are ever stopped for everyone.
pub proof fn law_only_proxy_calls_are_stopped(call: RuntimeCall)
    requires
        NormalFilter::stops(call),
    ensures
        call is Proxy,
{
}

/// Every call passes that does not go to the proxy pallet. Of those that do, a call
/// passes if it makes a proxied call, handles a single proxy, or has to do with
/// announcements.
pub proof fn law_all_other_calls_pass(call: RuntimeCall)
    ensures
        !NormalFilter::stops(call) <==> match call {
            RuntimeCall::Proxy(method) => {
                ||| method is Proxy
                ||| method is AddProxy
                ||| method is RemoveProxy
                ||| method is Announce
                ||| method is RemoveAnnouncement
                ||| method is RejectAnnouncement
                ||| method is ProxyAnnounced
            },
            _ => true,
        },
{
}

/// An unrestricted proxy can make every call.
pub proof fn law_unrestricted_proxies_make_all_calls(call: RuntimeCall)
    ensures
        ProxyType::Any.allows(call),
{
}

/// A proxy for cancelling can make no call to a pallet but multisig and proxy. It can
/// make every call to the first, and one to the second: to reject an announcement.
pub proof fn law_cancelling_proxies(call: RuntimeCall)
    ensures
        call is Multisig ==> ProxyType::CancelProxy.allows(call),
        call is Proxy ==> (ProxyType::CancelProxy.allows(call)
            <==> call->Proxy_0 is RejectAnnouncement),
        ProxyType::CancelProxy.allows(call) ==> call is Multisig || call is Proxy,
{
}

/// A proxy for collators can make exactly the calls to multisig and collator
/// selection.
pub proof fn law_collator_proxies(call: RuntimeCall)
    ensures
        call is Multisig ==> ProxyType::Collator.allows(call),
        call is CollatorSelection ==> ProxyType::Collator.allows(call),
        ProxyType::Collator.allows(call) ==> call is Multisig || call is CollatorSelection,
{
}

} // verus!
