//! Writing single keys: a key is written only where its value would change.

use crate::settings::{
    Address, Kind, Setting, Settings, SettingsStore, StoreView, Variant, VariantView,
};
use vstd::prelude::*;

verus! {

/// Hands `new_value` to the key `key` of `settings`: the key is written, and
/// the write logged, only where the value differs from the current one.
pub fn update_key(store: &mut SettingsStore, settings: &Settings, key: &str, new_value: Variant)
    requires
        old(store)@.holds(settings@.at(key@), new_value@.kind()),
    ensures
        final(store)@ == old(store)@.update(
            Setting { address: settings@.at(key@), value: new_value@ },
        ),
        forall|address: Address, kind: Kind| #[trigger]
            final(store)@.holds(address, kind) == old(store)@.holds(address, kind),
{
    reveal(StoreView::update);
    let changed = match store.get(settings, key) {
        Some(current) => current.differs(&new_value),
        None => false,
    };
    if changed {
        store.write(settings, key, new_value);
    }
}

/// Hands the text `new_value` to the key `key` of `settings`, as `update_key`
/// does for any value.
pub fn update_string_key(
    store: &mut SettingsStore,
    settings: &Settings,
    key: &str,
    new_value: &String,
)
    requires
        old(store)@.holds(settings@.at(key@), Kind::Text),
    ensures
        final(store)@ == old(store)@.update(
            Setting { address: settings@.at(key@), value: VariantView::Text(new_value@) },
        ),
        forall|address: Address, kind: Kind| #[trigger]
            final(store)@.holds(address, kind) == old(store)@.holds(address, kind),
{
    update_key(store, settings, key, Variant::Text(new_value.clone()));
}

} // verus!
