//! Which hub the app talks to.
use crate::octets;
use vstd::prelude::*;

verus! {

/// The hub that the app talks to.
#[derive(Debug, PartialEq, Eq)]
pub enum Backend {
    /// A real hub at this base address, without a slash at its end.
    Http(String),
    /// The in-memory hub.
    Fake,
}

/// What a [`Backend`] is.
pub enum BackendSpec {
    /// A real hub at this base address, in bytes.
    Http(Seq<u8>),
    /// The in-memory hub.
    Fake,
}

impl View for Backend {
    type V = BackendSpec;

    open spec fn view(&self) -> BackendSpec {
        match self {
            Backend::Http(base) => BackendSpec::Http(octets::utf8(base@)),
            Backend::Fake => BackendSpec::Fake,
        }
    }
}

impl Clone for Backend {
    fn clone(&self) -> (r: Self)
        ensures
            r@ == self@,
    {
        match self {
            Backend::Http(base) => Backend::Http(base.clone()),
            Backend::Fake => Backend::Fake,
        }
    }
}

/// An address without the slashes at its end.
pub open spec fn without_slashes(address: Seq<u8>) -> Seq<u8>
    decreases address.len(),
{
    if address.len() > 0 && address.last() == 47 {
        without_slashes(address.drop_last())
    } else {
        address
    }
}

/// An address without the slashes at its end.
pub fn base_address(address: &str) -> (r: String)
    ensures
        octets::utf8(r@) == without_slashes(octets::utf8(address@)),
{
    let bytes: &[u8] = address.as_bytes();
    let mut end: usize = bytes.len();
    proof {
        assert(bytes@.take(end as int) =~= bytes@);
        vstd::utf8::encode_utf8_valid_utf8(address@);
    }
    while end > 0 && bytes[end - 1] == 47
        invariant
            end <= bytes@.len(),
            vstd::utf8::valid_utf8(bytes@.take(end as int)),
            without_slashes(bytes@.take(end as int)) == without_slashes(bytes@),
        decreases end,
    {
        proof {
            let now = bytes@.take(end as int);
            assert(now.drop_last() =~= bytes@.take(end - 1));
            octets::lemma_cut_at_ascii(now, end - 1);
            assert(now.take(end - 1) =~= bytes@.take(end - 1));
        }
        end = end - 1;
    }
    assert(bytes@.subrange(0, end as int) =~= bytes@.take(end as int));
    match octets::text_of(&bytes[0..end]) {
        Some(text) => text.to_owned(),
        None => String::new(),
    }
}

/// The address of an endpoint.
pub fn endpoint(base: &str, path: &str) -> (r: String)
    ensures
        r@ == base@ + path@,
{
    base.to_owned().concat(path)
}

/// The hub to talk to from the start: a real one at an address, or the in-memory
/// one in mock mode.
pub fn initial(base_url: &str, mock: bool) -> (r: Backend)
    ensures
        r@ == (if mock {
            BackendSpec::Fake
        } else {
            BackendSpec::Http(without_slashes(octets::utf8(base_url@)))
        }),
{
    if mock {
        Backend::Fake
    } else {
        Backend::Http(base_address(base_url))
    }
}

/// The hub to talk to at another address. The in-memory hub has no address and
/// stays; without a hub there is nothing to point elsewhere.
pub fn readdressed(current: Option<&Backend>, base_url: &str) -> (r: Result<Backend, String>)
    ensures
        match current {
            None => r is Err && r->Err_0@ == "Not initialised. Call frbInit first."@,
            Some(Backend::Fake) => r is Ok && r->Ok_0@ == BackendSpec::Fake,
            Some(Backend::Http(_)) => r is Ok && r->Ok_0@ == BackendSpec::Http(
                without_slashes(octets::utf8(base_url@)),
            ),
        },
{
    match current {
        None => Err("Not initialised. Call frbInit first.".to_owned()),
        Some(Backend::Fake) => Ok(Backend::Fake),
        Some(Backend::Http(_)) => Ok(Backend::Http(base_address(base_url))),
    }
}

/// A base address is the address but for slashes at its end, of which it keeps none.
pub proof fn base_addresses_end_without_a_slash(address: &str, r: String)
    requires
        call_ensures(base_address, (address,), r),
    ensures
        ({
            let all = octets::utf8(address@);
            let base = octets::utf8(r@);
            &&& base.len() <= all.len()
            &&& all.take(base.len() as int) == base
            &&& forall|i: int| base.len() <= i < all.len() ==> #[trigger] all[i] == 47
            &&& base.len() > 0 ==> base[base.len() - 1] != 47
        }),
{
    lemma_without_slashes(octets::utf8(address@));
}

proof fn lemma_without_slashes(all: Seq<u8>)
    ensures
        ({
            let base = without_slashes(all);
            &&& base.len() <= all.len()
            &&& all.take(base.len() as int) == base
            &&& forall|i: int| base.len() <= i < all.len() ==> #[trigger] all[i] == 47
            &&& base.len() > 0 ==> base[base.len() - 1] != 47
        }),
    decreases all.len(),
{
    if all.len() > 0 && all.last() == 47 {
        let shorter = all.drop_last();
        lemma_without_slashes(shorter);
        let base = without_slashes(shorter);
        assert(all.take(base.len() as int) =~= shorter.take(base.len() as int));
        assert forall|i: int| base.len() <= i < all.len() implies #[trigger] all[i] == 47 by {
            if i < all.len() - 1 {
                assert(shorter[i] == 47);
            }
        }
    } else {
        assert(all.take(all.len() as int) =~= all);
    }
}

/// An endpoint is the base and the path. In mock mode the app talks to the in-memory
/// hub, whatever the address, and stays with it; otherwise to the hub at the address.
pub proof fn addresses_lead_to_the_hub(
    base: &str,
    path: &str,
    url: String,
    mock: bool,
    first: Backend,
    elsewhere: &str,
    next: Result<Backend, String>,
)
    requires
        call_ensures(endpoint, (base, path), url),
        call_ensures(initial, (base, mock), first),
        call_ensures(readdressed, (Some(&first), elsewhere), next),
    ensures
        url@ == base@ + path@,
        mock ==> first is Fake && next is Ok && next->Ok_0 is Fake,
        !mock ==> first@ == BackendSpec::Http(without_slashes(octets::utf8(base@))) && next is Ok
            && next->Ok_0@ == BackendSpec::Http(without_slashes(octets::utf8(elsewhere@))),
{
}

/// Without a hub there is nothing to point elsewhere.
pub proof fn readdressing_needs_a_hub(base_url: &str, r: Result<Backend, String>)
    requires
        call_ensures(readdressed, (None::<&Backend>, base_url), r),
    ensures
        r is Err,
        r->Err_0@ == "Not initialised. Call frbInit first."@,
{
}

} // verus!
