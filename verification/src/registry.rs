//! The registry of known printers: one handle for each address, never
//! replaced and never removed.
//!
//! The handles live in a concurrent hash map. What the map holds is known
//! to the proofs by name, and each of its operations by what it does to
//! that content.

use dashmap::DashMap;
use vstd::prelude::*;
use crate::address::{lemma_text_injective, DeviceAddress};
use crate::network_printer::{HandleView, NetworkPrinterHandle, NetworkPrinterInfo};

verus! {

/// `dashmap::DashMap`, carried as it is: what a map holds is known by the
/// name `registry_entries` alone.
#[verifier::external_type_specification]
#[verifier::external_body]
#[verifier::reject_recursive_types(K)]
#[verifier::reject_recursive_types(V)]
#[verifier::reject_recursive_types(S)]
pub struct ExDashMap<K, V, S>(DashMap<K, V, S>);

/// What a map of handles holds: the handle under each key.
pub uninterp spec fn registry_entries(printers: DashMap<String, NetworkPrinterHandle>) -> Map<
    Seq<char>,
    HandleView,
>;

/// An empty map, from `DashMap::new`.
#[verifier::external_body]
pub(crate) fn registry_new() -> (printers: DashMap<String, NetworkPrinterHandle>)
    ensures
        (registry_entries(printers) == Map::<Seq<char>, HandleView>::empty()),
{
    DashMap::new()
}

/// Whether the map holds the key, by `DashMap::contains_key`.
#[verifier::external_body]
pub(crate) fn registry_contains(printers: &DashMap<String, NetworkPrinterHandle>, key: &str) -> (b:
    bool)
    ensures
        b == registry_entries(*printers).contains_key(key@),
{
    printers.contains_key(key)
}

/// Puts a handle under a key with `DashMap::insert`, which replaces what
/// the key held and leaves every other key as it was.
#[verifier::external_body]
pub(crate) fn registry_insert(
    printers: &mut DashMap<String, NetworkPrinterHandle>,
    key: String,
    handle: NetworkPrinterHandle,
)
    ensures
        registry_entries(*final(printers)) == registry_entries(*old(printers)).insert(
            key@,
            handle@,
        ),
{
    printers.insert(key, handle);
}

/// A copy of every entry, from `DashMap::iter`: each entry of the map once,
/// in an order that is left open.
#[verifier::external_body]
pub(crate) fn registry_snapshot(printers: &DashMap<String, NetworkPrinterHandle>) -> (entries: Vec<
    (String, NetworkPrinterHandle),
>)
    ensures
        forall|i: int|
            0 <= i < entries@.len() ==> registry_entries(*printers).contains_pair(
                (#[trigger] entries@[i]).0@,
                entries@[i].1@,
            ),
        forall|i: int, j: int|
            0 <= i < j < entries@.len() ==> (#[trigger] entries@[i]).0@ != (
            #[trigger] entries@[j]).0@,
        forall|key: Seq<char>| #[trigger]
            registry_entries(*printers).contains_key(key) ==> exists|i: int|
                0 <= i < entries@.len() && (#[trigger] entries@[i]).0@ == key,
{
    printers.iter().map(|entry| (entry.key().clone(), entry.value().clone())).collect()
}

/// Whether every handle stands under the text of its own address, and the
/// handles are finitely many.
pub open spec fn well_keyed(printers: Map<Seq<char>, HandleView>) -> bool {
    &&& printers.dom().finite()
    &&& forall|key: Seq<char>| #[trigger]
        printers.contains_key(key) ==> printers[key].info.ip.text() == key
}

/// The registry after a handle was offered to it: unchanged where the
/// handle's address is registered already, else with the handle added.
pub open spec fn registered(printers: Map<Seq<char>, HandleView>, handle: HandleView) -> Map<
    Seq<char>,
    HandleView,
> {
    if printers.contains_key(handle.info.ip.text()) {
        printers
    } else {
        printers.insert(handle.info.ip.text(), handle)
    }
}

/// The registry after a sequence of handles was offered to it, in order.
pub open spec fn registered_all(
    printers: Map<Seq<char>, HandleView>,
    handles: Seq<HandleView>,
) -> Map<Seq<char>, HandleView>
    decreases handles.len(),
{
    if handles.len() == 0 {
        printers
    } else {
        registered(registered_all(printers, handles.drop_last()), handles.last())
    }
}

/// The addresses of a sequence of handles.
pub open spec fn addresses_of(handles: Seq<HandleView>) -> Set<DeviceAddress> {
    Set::new(
        |x: DeviceAddress|
            exists|i: int| 0 <= i < handles.len() && #[trigger] handles[i].info.ip == x,
    )
}

/// Offering a handle keeps the registry well keyed, and never touches what
/// was registered before.
pub proof fn lemma_registered_keeps(printers: Map<Seq<char>, HandleView>, handle: HandleView)
    requires
        well_keyed(printers),
    ensures
        well_keyed(registered(printers, handle)),
        registered(printers, handle).contains_key(handle.info.ip.text()),
        forall|key: Seq<char>| #[trigger]
            printers.contains_key(key) ==> registered(printers, handle).contains_key(key)
                && registered(printers, handle)[key] == printers[key],
        registered(printers, handle).dom() == printers.dom().insert(handle.info.ip.text()),
{
}

/// Registering the same address a second time changes nothing: one entry
/// stands for it, and it is the first.
pub proof fn lemma_register_twice(
    printers: Map<Seq<char>, HandleView>,
    first: HandleView,
    second: HandleView,
)
    requires
        first.info.ip == second.info.ip,
    ensures
        registered(registered(printers, first), second) == registered(printers, first),
{
}

/// A registry that started empty holds one entry for each distinct address
/// that was offered to it, however often each was offered.
pub proof fn lemma_one_entry_per_address(handles: Seq<HandleView>)
    ensures
        well_keyed(registered_all(Map::empty(), handles)),
        addresses_of(handles).finite(),
        registered_all(Map::empty(), handles).dom().len() == addresses_of(handles).len(),
        forall|x: DeviceAddress|
            addresses_of(handles).contains(x) <==> #[trigger] registered_all(
                Map::empty(),
                handles,
            ).contains_key(x.text()),
    decreases handles.len(),
{
    let all = registered_all(Map::<Seq<char>, HandleView>::empty(), handles);
    if handles.len() == 0 {
        assert(addresses_of(handles) =~= Set::empty());
    } else {
        let front = handles.drop_last();
        let x = handles.last().info.ip;
        lemma_one_entry_per_address(front);
        lemma_registered_keeps(
            registered_all(Map::<Seq<char>, HandleView>::empty(), front),
            handles.last(),
        );
        assert(addresses_of(handles) =~= addresses_of(front).insert(x)) by {
            assert forall|y: DeviceAddress| addresses_of(handles).contains(y) implies addresses_of(
                front,
            ).insert(x).contains(y) by {
                let i = choose|i: int| 0 <= i < handles.len() && #[trigger] handles[i].info.ip == y;
                if i < front.len() {
                    assert(front[i].info.ip == y);
                }
            }
            assert forall|y: DeviceAddress| addresses_of(front).insert(x).contains(
                y,
            ) implies addresses_of(handles).contains(y) by {
                if y == x {
                    assert(handles[handles.len() - 1].info.ip == y);
                } else {
                    let i = choose|i: int| 0 <= i < front.len() && #[trigger] front[i].info.ip == y;
                    assert(handles[i].info.ip == y);
                }
            }
        }
        assert forall|y: DeviceAddress|
            addresses_of(handles).contains(y) <==> #[trigger] all.contains_key(y.text()) by {
            if y.text() == x.text() {
                lemma_text_injective(y, x);
            }
        }
    }
}

/// The registry of known printers.
pub struct Registry {
    printers: DashMap<String, NetworkPrinterHandle>,
}

impl View for Registry {
    type V = Map<Seq<char>, HandleView>;

    closed spec fn view(&self) -> Map<Seq<char>, HandleView> {
        registry_entries(self.printers)
    }
}

impl Registry {
    /// Whether the registry is in order: every handle under the text of its
    /// own address.
    pub open spec fn wf(&self) -> bool {
        well_keyed(self@)
    }

    /// An empty registry.
    pub fn new() -> (registry: Self)
        ensures
            registry.wf(),
            registry@ == Map::<Seq<char>, HandleView>::empty(),
    {
        Registry { printers: registry_new() }
    }

    /// Whether a printer is registered under the address.
    pub fn contains(&self, address: &DeviceAddress) -> (b: bool)
        ensures
            b == self@.contains_key(address.text()),
    {
        let key = address.to_string();
        registry_contains(&self.printers, key.as_str())
    }

    /// Registers a handle under its address, unless a printer is registered
    /// there already: then nothing changes. Says whether the handle went in.
    pub fn insert_if_absent(&mut self, handle: NetworkPrinterHandle) -> (added: bool)
        requires
            old(self).wf(),
        ensures
            final(self).wf(),
            final(self)@ == registered(old(self)@, handle@),
            added == !old(self)@.contains_key(handle@.info.ip.text()),
    {
        proof {
            lemma_registered_keeps(self@, handle@);
        }
        let key = handle.info.ip.to_string();
        if registry_contains(&self.printers, key.as_str()) {
            false
        } else {
            registry_insert(&mut self.printers, key, handle);
            true
        }
    }

    /// A copy of every registered handle, in no particular order.
    pub fn list_handles(&self) -> (handles: Vec<NetworkPrinterHandle>)
        requires
            self.wf(),
        ensures
            handles@.len() == self@.dom().len(),
            forall|i: int|
                0 <= i < handles@.len() ==> self@.contains_pair(
                    (#[trigger] handles@[i])@.info.ip.text(),
                    handles@[i]@,
                ),
            forall|key: Seq<char>| #[trigger]
                self@.contains_key(key) ==> exists|i: int|
                    0 <= i < handles@.len() && (#[trigger] handles@[i])@ == self@[key],
    {
        let entries = registry_snapshot(&self.printers);
        let ghost keys = Seq::new(entries@.len(), |i: int| entries@[i].0@);
        proof {
            assert(keys.to_set() =~= self@.dom()) by {
                assert forall|key: Seq<char>| self@.dom().contains(key) implies keys.to_set()
                    .contains(key) by {
                    let i = choose|i: int|
                        0 <= i < entries@.len() && (#[trigger] entries@[i]).0@ == key;
                    assert(keys[i] == key);
                }
                assert forall|key: Seq<char>| keys.to_set().contains(key) implies self@.dom()
                    .contains(key) by {
                    let i = choose|i: int| 0 <= i < keys.len() && keys[i] == key;
                }
            }
            keys.unique_seq_to_set();
        }
        let mut handles: Vec<NetworkPrinterHandle> = Vec::new();
        let mut entries = entries;
        let ghost all = entries@;
        while entries.len() > 0
            invariant
                entries@.len() + handles@.len() == all.len(),
                forall|i: int| 0 <= i < entries@.len() ==> entries@[i] == all[i],
                forall|i: int|
                    0 <= i < handles@.len() ==> (#[trigger] handles@[i])@ == all[all.len() - 1
                        - i].1@,
            decreases entries.len(),
        {
            let (_, handle) = entries.pop().unwrap();
            handles.push(handle);
        }
        proof {
            assert forall|i: int| 0 <= i < handles@.len() implies self@.contains_pair(
                (#[trigger] handles@[i])@.info.ip.text(),
                handles@[i]@,
            ) by {
                let j = all.len() - 1 - i;
            }
            assert forall|key: Seq<char>| #[trigger] self@.contains_key(key) implies exists|i: int|
                0 <= i < handles@.len() && (#[trigger] handles@[i])@ == self@[key] by {
                let j = choose|j: int| 0 <= j < all.len() && (#[trigger] all[j]).0@ == key;
                assert(handles@[all.len() - 1 - j]@ == self@[key]);
            }
        }
        handles
    }

    /// A copy of the identity of every registered printer, in no particular
    /// order.
    pub fn list(&self) -> (infos: Vec<NetworkPrinterInfo>)
        requires
            self.wf(),
        ensures
            infos@.len() == self@.dom().len(),
            forall|i: int|
                0 <= i < infos@.len() ==> self@.contains_key(
                    (#[trigger] infos@[i])@.ip.text(),
                ) && self@[infos@[i]@.ip.text()].info == infos@[i]@,
            forall|key: Seq<char>| #[trigger]
                self@.contains_key(key) ==> exists|i: int|
                    0 <= i < infos@.len() && (#[trigger] infos@[i])@ == self@[key].info,
    {
        let mut handles = self.list_handles();
        let ghost all = handles@;
        let mut infos: Vec<NetworkPrinterInfo> = Vec::new();
        while handles.len() > 0
            invariant
                handles@.len() + infos@.len() == all.len(),
                forall|i: int| 0 <= i < handles@.len() ==> handles@[i] == all[i],
                forall|i: int|
                    0 <= i < infos@.len() ==> (#[trigger] infos@[i])@ == all[all.len() - 1
                        - i]@.info,
            decreases handles.len(),
        {
            let handle = handles.pop().unwrap();
            infos.push(handle.info);
        }
        proof {
            assert forall|i: int| 0 <= i < infos@.len() implies self@.contains_key(
                (#[trigger] infos@[i])@.ip.text(),
            ) && self@[infos@[i]@.ip.text()].info == infos@[i]@ by {
                let j = all.len() - 1 - i;
            }
            assert forall|key: Seq<char>| #[trigger] self@.contains_key(key) implies exists|i: int|
                0 <= i < infos@.len() && (#[trigger] infos@[i])@ == self@[key].info by {
                let j = choose|j: int| 0 <= j < all.len() && (#[trigger] all[j])@ == self@[key];
                assert(infos@[all.len() - 1 - j]@ == self@[key].info);
            }
        }
        infos
    }
}

} // verus!
