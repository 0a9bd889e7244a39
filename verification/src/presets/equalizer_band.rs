//! One band of an equalizer channel, and the bands of a channel together.

use crate::presets::common::{update_key, update_string_key};
use crate::settings::{
    distinct, placed, Address, Double, Kind, Section, Setting, Settings, SettingsStore, StoreView,
    Variant, VariantView,
};
use crate::text::{lemma_numbered_differ, lemma_numbered_ends, numbered, numbered_name};
use vstd::prelude::*;

verus! {

/// The number of bands of an equalizer channel.
pub const BANDS: usize = 32;

/// The key of band `index` that ends in `suffix`.
pub fn band_key(index: usize, suffix: &str) -> (r: String)
    ensures
        r@ == numbered("band"@, index as nat) + suffix@,
{
    let mut r = numbered_name("band", index);
    r.append(suffix);
    r
}

/// One band of an equalizer channel.
#[derive(Clone, Debug)]
pub struct Band {
    pub style: String,
    pub mode: String,
    pub slope: String,
    pub solo: bool,
    pub mute: bool,
    pub gain: Double,
    pub frequency: Double,
    pub q: Double,
}

impl Band {
    /// The band as the settings it stands for when it is the band `index` of
    /// `section`, in the order in which they are written.
    pub open spec fn settings(&self, section: Section, index: nat) -> Seq<Setting> {
        seq![
            Setting {
                address: section.at(numbered("band"@, index) + "-type"@),
                value: VariantView::Text(self.style@),
            },
            Setting {
                address: section.at(numbered("band"@, index) + "-mode"@),
                value: VariantView::Text(self.mode@),
            },
            Setting {
                address: section.at(numbered("band"@, index) + "-slope"@),
                value: VariantView::Text(self.slope@),
            },
            Setting {
                address: section.at(numbered("band"@, index) + "-solo"@),
                value: VariantView::Boolean(self.solo),
            },
            Setting {
                address: section.at(numbered("band"@, index) + "-mute"@),
                value: VariantView::Boolean(self.mute),
            },
            Setting {
                address: section.at(numbered("band"@, index) + "-gain"@),
                value: VariantView::Double(self.gain.bits),
            },
            Setting {
                address: section.at(numbered("band"@, index) + "-frequency"@),
                value: VariantView::Double(self.frequency.bits),
            },
            Setting {
                address: section.at(numbered("band"@, index) + "-q"@),
                value: VariantView::Double(self.q.bits),
            },
        ]
    }

    /// The settings that `store` holds for the band `index` of `section`, or
    /// `None` where a key is missing or of another type.
    pub open spec fn stored(store: StoreView, section: Section, index: nat) -> Option<
        Seq<Setting>,
    > {
        if store.holds(section.at(numbered("band"@, index) + "-type"@), Kind::Text)
            && store.holds(section.at(numbered("band"@, index) + "-mode"@), Kind::Text)
            && store.holds(section.at(numbered("band"@, index) + "-slope"@), Kind::Text)
            && store.holds(section.at(numbered("band"@, index) + "-solo"@), Kind::Boolean)
            && store.holds(section.at(numbered("band"@, index) + "-mute"@), Kind::Boolean)
            && store.holds(section.at(numbered("band"@, index) + "-gain"@), Kind::Double)
            && store.holds(section.at(numbered("band"@, index) + "-frequency"@), Kind::Double)
            && store.holds(section.at(numbered("band"@, index) + "-q"@), Kind::Double)
        {
            Some(
                seq![
                    store.setting(section.at(numbered("band"@, index) + "-type"@)),
                    store.setting(section.at(numbered("band"@, index) + "-mode"@)),
                    store.setting(section.at(numbered("band"@, index) + "-slope"@)),
                    store.setting(section.at(numbered("band"@, index) + "-solo"@)),
                    store.setting(section.at(numbered("band"@, index) + "-mute"@)),
                    store.setting(section.at(numbered("band"@, index) + "-gain"@)),
                    store.setting(section.at(numbered("band"@, index) + "-frequency"@)),
                    store.setting(section.at(numbered("band"@, index) + "-q"@)),
                ],
            )
        } else {
            None
        }
    }

    /// A store that holds the same keys with the same types holds the band alike.
    pub proof fn lemma_stays_stored(
        before: StoreView,
        after: StoreView,
        section: Section,
        index: nat,
    )
        requires
            forall|address: Address, kind: Kind| #[trigger]
                after.holds(address, kind) == before.holds(address, kind),
        ensures
            Self::stored(after, section, index) is Some == Self::stored(
                before,
                section,
                index,
            ) is Some,
    {
    }

    /// What a store holds for a band is what it holds at the keys of the
    /// band.
    pub proof fn lemma_stored(store: StoreView, section: Section, index: nat)
        requires
            Self::stored(store, section, index) is Some,
        ensures
            store.reads(Self::stored(store, section, index).unwrap()),
    {
    }

    /// A store that holds the band accepts its settings.
    pub proof fn lemma_accepted(&self, section: Section, index: nat, store: StoreView)
        requires
            Self::stored(store, section, index) is Some,
        ensures
            store.accepts(self.settings(section, index)),
    {
    }

    /// The settings of a band name keys of `section`, no key twice.
    pub proof fn lemma_settings(&self, section: Section, index: nat)
        ensures
            distinct(self.settings(section, index)),
            placed(self.settings(section, index), set![section]),
    {
        reveal_strlit("band");
        reveal_strlit("-type");
        reveal_strlit("-mode");
        reveal_strlit("-slope");
        reveal_strlit("-solo");
        reveal_strlit("-mute");
        reveal_strlit("-gain");
        reveal_strlit("-frequency");
        reveal_strlit("-q");
        assert("-type"@.len() == 5 && "-type"@[0] == '-' && "-type"@[1] == 't');
        assert("-mode"@.len() == 5
            && "-mode"@[0] == '-'
            && "-mode"@[1] == 'm'
            && "-mode"@[2] == 'o');
        assert("-slope"@.len() == 6 && "-slope"@[0] == '-');
        assert("-solo"@.len() == 5 && "-solo"@[0] == '-' && "-solo"@[1] == 's');
        assert("-mute"@.len() == 5 && "-mute"@[0] == '-' && "-mute"@[1] == 'm');
        assert("-gain"@.len() == 5 && "-gain"@[0] == '-');
        assert("-frequency"@.len() == 10 && "-frequency"@[0] == '-');
        assert("-q"@.len() == 2 && "-q"@[0] == '-');
        lemma_numbered_ends("band"@, index);
        Self::lemma_keys_differ(index, index);
    }

    /// Bands of different indices name different keys.
    pub proof fn lemma_bands_differ(&self, index: nat, other: Band, other_index: nat, section: Section)
        requires
            index != other_index,
        ensures
            forall|a: int, b: int|
                0 <= a < self.settings(section, index).len() && 0 <= b < other.settings(
                    section,
                    other_index,
                ).len() ==> (#[trigger] self.settings(section, index)[a]).address != (#[trigger] other.settings(
                    section,
                    other_index,
                )[b]).address,
    {
        reveal_strlit("band");
        reveal_strlit("-type");
        reveal_strlit("-mode");
        reveal_strlit("-slope");
        reveal_strlit("-solo");
        reveal_strlit("-mute");
        reveal_strlit("-gain");
        reveal_strlit("-frequency");
        reveal_strlit("-q");
        assert("-type"@.len() == 5 && "-type"@[0] == '-' && "-type"@[1] == 't');
        assert("-mode"@.len() == 5
            && "-mode"@[0] == '-'
            && "-mode"@[1] == 'm'
            && "-mode"@[2] == 'o');
        assert("-slope"@.len() == 6 && "-slope"@[0] == '-');
        assert("-solo"@.len() == 5 && "-solo"@[0] == '-' && "-solo"@[1] == 's');
        assert("-mute"@.len() == 5 && "-mute"@[0] == '-' && "-mute"@[1] == 'm');
        assert("-gain"@.len() == 5 && "-gain"@[0] == '-');
        assert("-frequency"@.len() == 10 && "-frequency"@[0] == '-');
        assert("-q"@.len() == 2 && "-q"@[0] == '-');
        Self::lemma_keys_differ(index, other_index);
    }

    /// Two keys of bands are the same only where the indices and the ends of
    /// the keys are.
    pub proof fn lemma_keys_differ(i: nat, j: nat)
        ensures
            forall|end_i: Seq<char>, end_j: Seq<char>|
                end_i.len() > 0 && end_i[0] == '-' && end_j.len() > 0 && end_j[0] == '-'
                    && #[trigger] (numbered("band"@, i) + end_i) == #[trigger] (numbered("band"@, j)
                    + end_j) ==> i == j && end_i == end_j,
    {
        assert forall|end_i: Seq<char>, end_j: Seq<char>|
            end_i.len() > 0 && end_i[0] == '-' && end_j.len() > 0 && end_j[0] == '-'
                && #[trigger] (numbered("band"@, i) + end_i) == #[trigger] (numbered("band"@, j)
                + end_j) implies i == j && end_i == end_j by {
            lemma_numbered_differ("band"@, i, end_i, j, end_j);
        }
    }

    /// Reads the band `index` of `settings` from `store`.
    pub fn read(store: &SettingsStore, settings: &Settings, index: usize) -> (r: Option<Band>)
        ensures
            match r {
                Some(band) => Self::stored(store@, settings@, index as nat) == Some(
                    band.settings(settings@, index as nat),
                ),
                None => Self::stored(store@, settings@, index as nat) is None,
            },
    {
        let band = Band {
            style: settings.get_string(store, band_key(index, "-type").as_str())?,
            mode: settings.get_string(store, band_key(index, "-mode").as_str())?,
            slope: settings.get_string(store, band_key(index, "-slope").as_str())?,
            solo: settings.get_boolean(store, band_key(index, "-solo").as_str())?,
            mute: settings.get_boolean(store, band_key(index, "-mute").as_str())?,
            gain: settings.get_double(store, band_key(index, "-gain").as_str())?,
            frequency: settings.get_double(store, band_key(index, "-frequency").as_str())?,
            q: settings.get_double(store, band_key(index, "-q").as_str())?,
        };
        assert(Self::stored(store@, settings@, index as nat).unwrap() =~= band.settings(
            settings@,
            index as nat,
        ));
        Some(band)
    }

    /// Handing these settings to a store is handing them over one after
    /// another.
    pub proof fn lemma_applied(&self, section: Section, index: nat, store: StoreView)
        ensures
            store.apply(self.settings(section, index)) == store
                .update(self.settings(section, index)[0]).update(self.settings(section, index)[1])
                .update(self.settings(section, index)[2]).update(self.settings(section, index)[3])
                .update(self.settings(section, index)[4]).update(self.settings(section, index)[5])
                .update(self.settings(section, index)[6]).update(self.settings(section, index)[7]),
    {
        store.lemma_apply_steps(self.settings(section, index));
    }

    /// Hands every field to its key of the band `index` of `settings`: a key is
    /// written only where its value would change.
    pub fn apply(&self, store: &mut SettingsStore, settings: &Settings, index: usize)
        requires
            Self::stored(old(store)@, settings@, index as nat) is Some,
        ensures
            final(store)@ == old(store)@.apply(self.settings(settings@, index as nat)),
            forall|address: Address, kind: Kind| #[trigger]
                final(store)@.holds(address, kind) == old(store)@.holds(address, kind),
    {
        update_string_key(store, settings, band_key(index, "-type").as_str(), &self.style);
        update_string_key(store, settings, band_key(index, "-mode").as_str(), &self.mode);
        update_string_key(store, settings, band_key(index, "-slope").as_str(), &self.slope);
        update_key(store, settings, band_key(index, "-solo").as_str(), Variant::Boolean(self.solo));
        update_key(store, settings, band_key(index, "-mute").as_str(), Variant::Boolean(self.mute));
        update_key(store, settings, band_key(index, "-gain").as_str(), Variant::Double(self.gain));
        update_key(
            store,
            settings,
            band_key(index, "-frequency").as_str(),
            Variant::Double(self.frequency),
        );
        update_key(store, settings, band_key(index, "-q").as_str(), Variant::Double(self.q));
        proof {
            self.lemma_applied(settings@, index as nat, old(store)@);
        }
    }
}

/// The first `count` bands of `bands` as the settings they stand for in
/// `section`, band after band.
pub open spec fn bands_settings(bands: Seq<Band>, section: Section, count: nat) -> Seq<Setting>
    decreases count,
{
    if count == 0 {
        Seq::empty()
    } else {
        bands_settings(bands, section, (count - 1) as nat) + bands[count - 1].settings(
            section,
            (count - 1) as nat,
        )
    }
}

/// The settings that `store` holds for the first `count` bands of `section`,
/// or `None` where a key of one of them is missing or of another type.
pub open spec fn bands_stored(store: StoreView, section: Section, count: nat) -> Option<
    Seq<Setting>,
>
    decreases count,
{
    if count == 0 {
        Some(Seq::empty())
    } else {
        match (
            bands_stored(store, section, (count - 1) as nat),
            Band::stored(store, section, (count - 1) as nat),
        ) {
            (Some(before), Some(last)) => Some(before + last),
            _ => None,
        }
    }
}

/// The settings of the first `count` bands depend on those bands alone.
pub proof fn lemma_bands_settings_prefix(a: Seq<Band>, b: Seq<Band>, section: Section, count: nat)
    requires
        count <= a.len(),
        count <= b.len(),
        forall|i: int| 0 <= i < count ==> a[i] == b[i],
    ensures
        bands_settings(a, section, count) == bands_settings(b, section, count),
    decreases count,
{
    if count > 0 {
        lemma_bands_settings_prefix(a, b, section, (count - 1) as nat);
    }
}

/// The store holds `count` bands exactly where it holds each of them.
pub proof fn lemma_bands_stored(store: StoreView, section: Section, count: nat)
    ensures
        bands_stored(store, section, count) is Some <==> forall|i: nat|
            i < count ==> (#[trigger] Band::stored(store, section, i)) is Some,
    decreases count,
{
    if count > 0 {
        lemma_bands_stored(store, section, (count - 1) as nat);
        if bands_stored(store, section, count) is Some {
            assert forall|i: nat| i < count implies (#[trigger] Band::stored(
                store,
                section,
                i,
            )) is Some by {
                if i < count - 1 {
                } else {
                    assert(i == (count - 1) as nat);
                }
            }
        } else if bands_stored(store, section, (count - 1) as nat) is Some {
            assert(Band::stored(store, section, (count - 1) as nat) is None);
        }
    }
}

/// A store that holds the same keys with the same types holds the same bands.
pub proof fn lemma_bands_stay_stored(
    before: StoreView,
    after: StoreView,
    section: Section,
    count: nat,
)
    requires
        forall|address: Address, kind: Kind| #[trigger]
            after.holds(address, kind) == before.holds(address, kind),
    ensures
        bands_stored(after, section, count) is Some == bands_stored(before, section, count) is Some,
    decreases count,
{
    if count > 0 {
        lemma_bands_stay_stored(before, after, section, (count - 1) as nat);
    }
}

/// Every setting of the first `count` bands is a setting of one of them.
pub proof fn lemma_bands_element(bands: Seq<Band>, section: Section, count: nat, position: int)
    requires
        count <= bands.len(),
        0 <= position < bands_settings(bands, section, count).len(),
    ensures
        exists|index: nat, field: int|
            index < count && 0 <= field < bands[index as int].settings(section, index).len()
                && bands_settings(bands, section, count)[position]
                == #[trigger] bands[index as int].settings(section, index)[field],
    decreases count,
{
    let before = bands_settings(bands, section, (count - 1) as nat);
    if position < before.len() {
        lemma_bands_element(bands, section, (count - 1) as nat, position);
    } else {
        let index = (count - 1) as nat;
        let field = position - before.len();
        assert(bands_settings(bands, section, count)[position] == bands[index as int].settings(
            section,
            index,
        )[field]);
    }
}

/// What a store holds for the first `count` bands is what it holds at the keys
/// of those bands.
pub proof fn lemma_bands_read(store: StoreView, section: Section, count: nat)
    requires
        bands_stored(store, section, count) is Some,
    ensures
        store.reads(bands_stored(store, section, count).unwrap()),
    decreases count,
{
    if count > 0 {
        let index = (count - 1) as nat;
        lemma_bands_read(store, section, index);
        Band::lemma_stored(store, section, index);
        store.lemma_reads_concat(
            bands_stored(store, section, index).unwrap(),
            Band::stored(store, section, index).unwrap(),
        );
    }
}

/// A store that holds the first `count` bands accepts their settings.
pub proof fn lemma_bands_accepted(bands: Seq<Band>, section: Section, count: nat, store: StoreView)
    requires
        count <= bands.len(),
        bands_stored(store, section, count) is Some,
    ensures
        store.accepts(bands_settings(bands, section, count)),
    decreases count,
{
    if count > 0 {
        let index = (count - 1) as nat;
        lemma_bands_accepted(bands, section, index, store);
        bands[index as int].lemma_accepted(section, index, store);
        store.lemma_accepts_concat(
            bands_settings(bands, section, index),
            bands[index as int].settings(section, index),
        );
    }
}

/// The settings of the first `count` bands name keys of `section`, no key
/// twice.
pub proof fn lemma_bands_settings(bands: Seq<Band>, section: Section, count: nat)
    requires
        count <= bands.len(),
    ensures
        distinct(bands_settings(bands, section, count)),
        placed(bands_settings(bands, section, count), set![section]),
    decreases count,
{
    if count > 0 {
        let index = (count - 1) as nat;
        let before = bands_settings(bands, section, index);
        let last = bands[index as int].settings(section, index);
        let all = before + last;
        lemma_bands_settings(bands, section, index);
        bands[index as int].lemma_settings(section, index);
        assert forall|i: int, j: int| 0 <= i < j < all.len() implies all[i].address
            != all[j].address by {
            if j < before.len() {
            } else if i >= before.len() {
                assert(last[i - before.len()].address != last[j - before.len()].address);
            } else {
                lemma_bands_element(bands, section, index, i);
                let (k, field) = choose|k: nat, field: int|
                    k < index && 0 <= field < bands[k as int].settings(section, k).len()
                        && before[i] == #[trigger] bands[k as int].settings(section, k)[field];
                bands[k as int].lemma_bands_differ(k, bands[index as int], index, section);
                assert(all[j] == last[j - before.len()]);
            }
        }
        assert forall|i: int| 0 <= i < all.len() implies set![section].contains(
            #[trigger] all[i].address.section,
        ) by {
            if i < before.len() {
                assert(all[i] == before[i]);
            } else {
                assert(all[i] == last[i - before.len()]);
            }
        }
    }
}

/// Reads the first `count` bands of `settings` from `store`.
pub fn read_bands(store: &SettingsStore, settings: &Settings, count: usize) -> (r: Option<
    Vec<Band>,
>)
    ensures
        match r {
            Some(bands) => bands.len() == count && bands_stored(store@, settings@, count as nat)
                == Some(bands_settings(bands@, settings@, count as nat)),
            None => bands_stored(store@, settings@, count as nat) is None,
        },
{
    let mut bands: Vec<Band> = Vec::new();
    let mut index: usize = 0;
    while index < count
        invariant
            index <= count,
            bands.len() == index,
            bands_stored(store@, settings@, index as nat) == Some(
                bands_settings(bands@, settings@, index as nat),
            ),
        decreases count - index,
    {
        let ghost before = bands@;
        match Band::read(store, settings, index) {
            Some(band) => {
                bands.push(band);
                proof {
                    lemma_bands_settings_prefix(before, bands@, settings@, index as nat);
                }
            },
            None => {
                proof {
                    lemma_bands_stored(store@, settings@, count as nat);
                }
                return None;
            },
        }
        index += 1;
    }
    Some(bands)
}

/// Hands every band of `bands` to its keys in `settings`, band after band.
pub fn apply_bands(bands: &Vec<Band>, store: &mut SettingsStore, settings: &Settings)
    requires
        bands_stored(old(store)@, settings@, bands.len() as nat) is Some,
    ensures
        final(store)@ == old(store)@.apply(bands_settings(bands@, settings@, bands.len() as nat)),
        forall|address: Address, kind: Kind| #[trigger]
            final(store)@.holds(address, kind) == old(store)@.holds(address, kind),
{
    let mut index: usize = 0;
    proof {
        lemma_bands_stored(old(store)@, settings@, bands.len() as nat);
    }
    while index < bands.len()
        invariant
            index <= bands.len(),
            store@ == old(store)@.apply(bands_settings(bands@, settings@, index as nat)),
            forall|address: Address, kind: Kind| #[trigger]
                store@.holds(address, kind) == old(store)@.holds(address, kind),
            forall|i: nat|
                i < bands.len() ==> (#[trigger] Band::stored(old(store)@, settings@, i)) is Some,
        decreases bands.len() - index,
    {
        assert(Band::stored(old(store)@, settings@, index as nat) is Some);
        bands[index].apply(store, settings, index);
        proof {
            old(store)@.lemma_apply_concat(
                bands_settings(bands@, settings@, index as nat),
                bands@[index as int].settings(settings@, index as nat),
            );
        }
        index += 1;
    }
}

} // verus!
