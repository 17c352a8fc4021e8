//! The built-in mechanism catalog and the registry it initializes.
use vstd::prelude::*;
use crate::mechname::{valid_mechname, mechname_error, is_mechname_byte};
use crate::registry::{Mechanism, MechKind, Registry, RegistrationError, has_name};

verus! {

/// `ANONYMOUS` in ASCII.
pub open spec fn anonymous_name() -> Seq<u8> {
    seq![65u8, 78, 79, 78, 89, 77, 79, 85, 83]
}

/// `PLAIN` in ASCII.
pub open spec fn plain_name() -> Seq<u8> {
    seq![80u8, 76, 65, 73, 78]
}

/// The priority of ANONYMOUS.
pub const ANONYMOUS_PRIORITY: u32 = 100;

/// The priority of PLAIN.
pub const PLAIN_PRIORITY: u32 = 300;

/// The descriptor of ANONYMOUS: both sides, no channel binding.
pub open spec fn anonymous_descriptor(m: Mechanism) -> bool {
    &&& m.name@ == anonymous_name()
    &&& m.priority == ANONYMOUS_PRIORITY
    &&& m.client && m.server && !m.needs_channel_binding
    &&& m.kind == MechKind::Anonymous
}

/// The descriptor of PLAIN: both sides, no channel binding.
pub open spec fn plain_descriptor(m: Mechanism) -> bool {
    &&& m.name@ == plain_name()
    &&& m.priority == PLAIN_PRIORITY
    &&& m.client && m.server && !m.needs_channel_binding
    &&& m.kind == MechKind::Plain
}

pub fn anonymous_mechanism() -> (r: Mechanism)
    ensures
        anonymous_descriptor(r),
{
    let name: Vec<u8> = vec![65u8, 78, 79, 78, 89, 77, 79, 85, 83];
    assert(name@ =~= anonymous_name());
    Mechanism {
        name,
        priority: ANONYMOUS_PRIORITY,
        client: true,
        server: true,
        needs_channel_binding: false,
        kind: MechKind::Anonymous,
    }
}

pub fn plain_mechanism() -> (r: Mechanism)
    ensures
        plain_descriptor(r),
{
    let name: Vec<u8> = vec![80u8, 76, 65, 73, 78];
    assert(name@ =~= plain_name());
    Mechanism {
        name,
        priority: PLAIN_PRIORITY,
        client: true,
        server: true,
        needs_channel_binding: false,
        kind: MechKind::Plain,
    }
}

/// The built-in names are mechanism names.
pub proof fn lemma_builtin_names_valid()
    ensures
        valid_mechname(anonymous_name()),
        mechname_error(anonymous_name()) is None,
        valid_mechname(plain_name()),
        mechname_error(plain_name()) is None,
        anonymous_name() != plain_name(),
{
    let a = anonymous_name();
    let p = plain_name();
    assert forall|i: int| 0 <= i < a.len() implies is_mechname_byte(#[trigger] a[i]) by {
        assert(a[0] == 65 && a[1] == 78 && a[2] == 79 && a[3] == 78 && a[4] == 89);
        assert(a[5] == 77 && a[6] == 79 && a[7] == 85 && a[8] == 83);
    }
    assert forall|i: int| 0 <= i < p.len() implies is_mechname_byte(#[trigger] p[i]) by {
        assert(p[0] == 80 && p[1] == 76 && p[2] == 65 && p[3] == 73 && p[4] == 78);
    }
    assert(a.len() != p.len());
}

/// Registers the built-in mechanisms, ANONYMOUS then PLAIN, and stops at the
/// first failure.
pub fn register_builtin_mechs(registry: &mut Registry) -> (r: Result<(), RegistrationError>)
    requires
        old(registry).wf(),
    ensures
        final(registry).wf(),
        has_name(old(registry).mechanisms@, anonymous_name()) ==> r == Err::<
            (),
            RegistrationError,
        >(RegistrationError::Duplicate) && *final(registry) == *old(registry),
        !has_name(old(registry).mechanisms@, anonymous_name()) && has_name(
            old(registry).mechanisms@,
            plain_name(),
        ) ==> r == Err::<(), RegistrationError>(RegistrationError::Duplicate)
            && final(registry).mechanisms@.len() == old(registry).mechanisms@.len() + 1
            && anonymous_descriptor(final(registry).mechanisms@.last()),
        !has_name(old(registry).mechanisms@, anonymous_name()) && !has_name(
            old(registry).mechanisms@,
            plain_name(),
        ) ==> r is Ok && final(registry).mechanisms@.len() == old(registry).mechanisms@.len() + 2
            && final(registry).mechanisms@.subrange(0, old(registry).mechanisms@.len() as int)
            == old(registry).mechanisms@ && anonymous_descriptor(
            final(registry).mechanisms@[old(registry).mechanisms@.len() as int],
        ) && plain_descriptor(final(registry).mechanisms@.last()),
{
    proof {
        lemma_builtin_names_valid();
    }
    let ghost before = registry.mechanisms@;
    match registry.register(anonymous_mechanism()) {
        Err(e) => {
            return Err(e);
        },
        Ok(()) => {},
    }
    let ghost mid = registry.mechanisms@;
    assert(has_name(mid, plain_name()) == has_name(before, plain_name())) by {
        if has_name(mid, plain_name()) {
            let i = choose|i: int| 0 <= i < mid.len() && (#[trigger] mid[i]).name@ == plain_name();
            assert(i < before.len());
            assert(before[i] == mid[i]);
        }
        if has_name(before, plain_name()) {
            let i = choose|i: int| 0 <= i < before.len() && (#[trigger] before[i]).name@ == plain_name();
            assert(before[i] == mid[i]);
        }
    }
    let r = registry.register(plain_mechanism());
    proof {
        if r is Ok {
            assert(registry.mechanisms@.subrange(0, before.len() as int) =~= before);
        }
    }
    r
}

/// A registry holding the built-in mechanisms.
pub fn gsasl_init() -> (r: Result<Registry, RegistrationError>)
    ensures
        r is Ok,
        r->Ok_0.wf(),
        r->Ok_0.mechanisms@.len() == 2,
        anonymous_descriptor(r->Ok_0.mechanisms@[0]),
        plain_descriptor(r->Ok_0.mechanisms@[1]),
{
    let mut registry = Registry::new();
    match register_builtin_mechs(&mut registry) {
        Ok(()) => Ok(registry),
        Err(e) => Err(e),
    }
}

} // verus!
