//! A model of the desktop settings database: typed values addressed by schema,
//! path and key, with a log of the writes made to it.

use vstd::prelude::*;

verus! {

/// Mask that clears the sign bit of a double's bit pattern.
pub const MAGNITUDE_MASK: u64 = 0x7fff_ffff_ffff_ffffu64;

/// Bit pattern of positive infinity; every larger magnitude is a NaN.
pub const INFINITY_BITS: u64 = 0x7ff0_0000_0000_0000u64;

/// Whether a bit pattern encodes a NaN.
pub open spec fn is_nan(bits: u64) -> bool {
    (bits & MAGNITUDE_MASK) > INFINITY_BITS
}

/// Numeric equality of two doubles given by their bit patterns: a NaN equals
/// nothing, the two zeros equal each other, and any other number equals only
/// itself.
pub open spec fn same_number(a: u64, b: u64) -> bool {
    !is_nan(a) && !is_nan(b) && (a == b || ((a | b) & MAGNITUDE_MASK) == 0)
}

/// A double-precision number, held by its IEEE 754 bit pattern.
#[derive(Clone, Copy, Debug)]
pub struct Double {
    pub bits: u64,
}

impl Double {
    pub fn from_bits(bits: u64) -> (r: Double)
        ensures
            r.bits == bits,
    {
        Double { bits }
    }

    pub fn to_bits(&self) -> (r: u64)
        ensures
            r == self.bits,
    {
        self.bits
    }

    pub fn is_nan(&self) -> (r: bool)
        ensures
            r == is_nan(self.bits),
    {
        (self.bits & MAGNITUDE_MASK) > INFINITY_BITS
    }

    /// Numeric comparison, as `==` on the numbers themselves.
    pub fn same_number(&self, other: &Double) -> (r: bool)
        ensures
            r == same_number(self.bits, other.bits),
    {
        !self.is_nan() && !other.is_nan() && (self.bits == other.bits || ((self.bits | other.bits)
            & MAGNITUDE_MASK) == 0)
    }
}

/// The type of a key's value.
#[derive(Clone, Copy, Debug, PartialEq, Eq, Structural)]
pub enum Kind {
    Boolean,
    Int32,
    Double,
    Text,
    Other,
}

/// The mathematical value of a key.
pub enum VariantView {
    Boolean(bool),
    Int32(i32),
    Double(u64),
    Text(Seq<char>),
    /// A value of any other type, by its printed form.
    Other(Seq<char>),
}

impl VariantView {
    pub open spec fn kind(self) -> Kind {
        match self {
            VariantView::Boolean(_) => Kind::Boolean,
            VariantView::Int32(_) => Kind::Int32,
            VariantView::Double(_) => Kind::Double,
            VariantView::Text(_) => Kind::Text,
            VariantView::Other(_) => Kind::Other,
        }
    }

    /// Whether writing `new` over `self` would change the stored value:
    /// doubles are compared as numbers, everything else for equality.
    pub open spec fn differs(self, new: VariantView) -> bool {
        match (self, new) {
            (VariantView::Double(a), VariantView::Double(b)) => !same_number(a, b),
            _ => self != new,
        }
    }

    /// Whether the value is a double that is a NaN.
    pub open spec fn is_nan(self) -> bool {
        match self {
            VariantView::Double(bits) => is_nan(bits),
            _ => false,
        }
    }

    /// Whether a key holding `self` shows the value `wanted`: the two are the
    /// same, or they are doubles that compare equal as numbers.
    pub open spec fn shows(self, wanted: VariantView) -> bool {
        self == wanted || !self.differs(wanted)
    }
}

/// The value of a key.
#[derive(Clone, Debug)]
pub enum Variant {
    Boolean(bool),
    Int32(i32),
    Double(Double),
    Text(String),
    /// A value of any other type, by its printed form.
    Other(String),
}

impl View for Variant {
    type V = VariantView;

    open spec fn view(&self) -> VariantView {
        match self {
            Variant::Boolean(b) => VariantView::Boolean(*b),
            Variant::Int32(i) => VariantView::Int32(*i),
            Variant::Double(d) => VariantView::Double(d.bits),
            Variant::Text(s) => VariantView::Text(s@),
            Variant::Other(s) => VariantView::Other(s@),
        }
    }
}

impl Variant {
    pub fn kind(&self) -> (r: Kind)
        ensures
            r == self@.kind(),
    {
        match self {
            Variant::Boolean(_) => Kind::Boolean,
            Variant::Int32(_) => Kind::Int32,
            Variant::Double(_) => Kind::Double,
            Variant::Text(_) => Kind::Text,
            Variant::Other(_) => Kind::Other,
        }
    }

    /// A copy with the same mathematical value.
    pub fn duplicate(&self) -> (r: Variant)
        ensures
            r@ == self@,
    {
        match self {
            Variant::Boolean(b) => Variant::Boolean(*b),
            Variant::Int32(i) => Variant::Int32(*i),
            Variant::Double(d) => Variant::Double(*d),
            Variant::Text(s) => Variant::Text(s.clone()),
            Variant::Other(s) => Variant::Other(s.clone()),
        }
    }

    /// Whether writing `new` over `self` would change the stored value.
    pub fn differs(&self, new: &Variant) -> (r: bool)
        ensures
            r == self@.differs(new@),
    {
        match (self, new) {
            (Variant::Boolean(a), Variant::Boolean(b)) => *a != *b,
            (Variant::Int32(a), Variant::Int32(b)) => *a != *b,
            (Variant::Double(a), Variant::Double(b)) => !a.same_number(b),
            (Variant::Text(a), Variant::Text(b)) => !(*a == *b),
            (Variant::Other(a), Variant::Other(b)) => !(*a == *b),
            _ => true,
        }
    }
}

/// The place of a group of keys: a schema and the path it is bound to.
pub struct Section {
    pub schema: Seq<char>,
    pub path: Seq<char>,
}

impl Section {
    pub open spec fn at(self, key: Seq<char>) -> Address {
        Address { section: self, key }
    }
}

/// The place of one key.
pub struct Address {
    pub section: Section,
    pub key: Seq<char>,
}

/// A key together with a value for it.
pub struct Setting {
    pub address: Address,
    pub value: VariantView,
}

/// Whether no setting of `list` has a double that is a NaN for its value.
pub open spec fn free_of_nan(list: Seq<Setting>) -> bool {
    forall|i: int| 0 <= i < list.len() ==> !(#[trigger] list[i]).value.is_nan()
}

/// Whether no two settings of `list` name the same key.
pub open spec fn distinct(list: Seq<Setting>) -> bool {
    forall|i: int, j: int| 0 <= i < j < list.len() ==> list[i].address != list[j].address
}

/// The mark of a section: the length of its path and three characters near
/// the end of the path. Sections with different marks are different sections.
pub open spec fn mark(section: Section) -> (nat, char, char, char) {
    (
        section.path.len(),
        section.path[section.path.len() - 2],
        section.path[section.path.len() - 4],
        section.path[section.path.len() - 6],
    )
}

/// Whether every setting of `list` names a key in one of `sections`.
pub open spec fn placed(list: Seq<Setting>, sections: Set<Section>) -> bool {
    forall|i: int| 0 <= i < list.len() ==> sections.contains(#[trigger] list[i].address.section)
}

/// Two lists without a repeated key, placed in sections that the two do not
/// share, make one such list.
pub proof fn lemma_distinct_concat(
    first: Seq<Setting>,
    second: Seq<Setting>,
    first_sections: Set<Section>,
    second_sections: Set<Section>,
)
    requires
        distinct(first),
        distinct(second),
        placed(first, first_sections),
        placed(second, second_sections),
        first_sections.disjoint(second_sections),
    ensures
        distinct(first + second),
        placed(first + second, first_sections.union(second_sections)),
{
    let both = first + second;
    assert forall|i: int, j: int| 0 <= i < j < both.len() implies both[i].address
        != both[j].address by {
        if j < first.len() {
        } else if i >= first.len() {
            assert(second[i - first.len()].address != second[j - first.len()].address);
        } else {
            assert(first_sections.contains(first[i].address.section));
            assert(second_sections.contains(second[j - first.len()].address.section));
        }
    }
    assert forall|i: int| 0 <= i < both.len() implies first_sections.union(
        second_sections,
    ).contains(#[trigger] both[i].address.section) by {
        if i < first.len() {
            assert(first_sections.contains(first[i].address.section));
        } else {
            assert(second_sections.contains(second[i - first.len()].address.section));
        }
    }
}

/// The state of the settings database.
pub struct StoreView {
    /// The current value of every key.
    pub values: Map<Address, VariantView>,
    /// The writes made so far, oldest first.
    pub writes: Seq<Setting>,
}

impl StoreView {
    /// Whether `address` exists and holds a value of type `kind`.
    pub open spec fn holds(self, address: Address, kind: Kind) -> bool {
        self.values.contains_key(address) && self.values[address].kind() == kind
    }

    /// The key at `address` with its current value.
    pub open spec fn setting(self, address: Address) -> Setting {
        Setting { address, value: self.values[address] }
    }

    /// Whether `setting` names an existing key whose value it would change.
    pub open spec fn changed_by(self, setting: Setting) -> bool {
        self.values.contains_key(setting.address) && self.values[setting.address].differs(
            setting.value,
        )
    }

    /// The state after `setting` was handed to the store: the key is written,
    /// and the write logged, only where the value differs from the current one.
    #[verifier::opaque]
    pub open spec fn update(self, setting: Setting) -> StoreView {
        if self.changed_by(setting) {
            StoreView {
                values: self.values.insert(setting.address, setting.value),
                writes: self.writes.push(setting),
            }
        } else {
            self
        }
    }

    /// The state after every setting of `list` was handed to the store, first
    /// to last.
    pub open spec fn apply(self, list: Seq<Setting>) -> StoreView
        decreases list.len(),
    {
        if list.len() == 0 {
            self
        } else {
            self.apply(list.drop_last()).update(list.last())
        }
    }

    /// Handing a list to the store is handing its settings one after another.
    pub proof fn lemma_apply_steps(self, list: Seq<Setting>)
        ensures
            self.apply(list.take(0)) == self,
            list.take(list.len() as int) == list,
            forall|k: int|
                0 < k <= list.len() ==> #[trigger] self.apply(list.take(k)) == self.apply(
                    list.take(k - 1),
                ).update(list[k - 1]),
    {
        assert(list.take(list.len() as int) =~= list);
        assert forall|k: int| 0 < k <= list.len() implies #[trigger] self.apply(list.take(k))
            == self.apply(list.take(k - 1)).update(list[k - 1]) by {
            assert(list.take(k).drop_last() =~= list.take(k - 1));
        }
    }

    /// Handing over two lists in a row is handing over the two as one.
    pub proof fn lemma_apply_concat(self, first: Seq<Setting>, second: Seq<Setting>)
        ensures
            self.apply(first + second) == self.apply(first).apply(second),
        decreases second.len(),
    {
        if second.len() == 0 {
            assert(first + second =~= first);
        } else {
            assert((first + second).drop_last() =~= first + second.drop_last());
            self.lemma_apply_concat(first, second.drop_last());
        }
    }

    /// Whether every setting of `list` names an existing key of its own type.
    pub open spec fn accepts(self, list: Seq<Setting>) -> bool {
        forall|i: int|
            0 <= i < list.len() ==> self.holds(#[trigger] list[i].address, list[i].value.kind())
    }

    /// Whether `list` is what the store holds at the keys that the list names.
    pub open spec fn reads(self, list: Seq<Setting>) -> bool {
        forall|i: int| 0 <= i < list.len() ==> #[trigger] list[i] == self.setting(list[i].address)
    }

    /// What the store holds at the keys of two lists, it holds at the keys of
    /// the two as one.
    pub proof fn lemma_reads_concat(self, first: Seq<Setting>, second: Seq<Setting>)
        requires
            self.reads(first),
            self.reads(second),
        ensures
            self.reads(first + second),
    {
        let both = first + second;
        assert forall|i: int| 0 <= i < both.len() implies #[trigger] both[i] == self.setting(
            both[i].address,
        ) by {
            if i < first.len() {
                assert(both[i] == first[i]);
            } else {
                assert(both[i] == second[i - first.len()]);
            }
        }
    }

    /// A store that accepts two lists accepts the two as one.
    pub proof fn lemma_accepts_concat(self, first: Seq<Setting>, second: Seq<Setting>)
        requires
            self.accepts(first),
            self.accepts(second),
        ensures
            self.accepts(first + second),
    {
        let both = first + second;
        assert forall|i: int| 0 <= i < both.len() implies self.holds(
            #[trigger] both[i].address,
            both[i].value.kind(),
        ) by {
            if i < first.len() {
                assert(both[i] == first[i]);
            } else {
                assert(both[i] == second[i - first.len()]);
            }
        }
    }

    /// Whether every setting of `list` names an existing key that shows its
    /// value.
    pub open spec fn shows(self, list: Seq<Setting>) -> bool {
        forall|i: int|
            0 <= i < list.len() ==> self.values.contains_key(#[trigger] list[i].address)
                && self.values[list[i].address].shows(list[i].value)
    }

    /// Handing a setting to a store that holds its key with its type changes
    /// no key but its own, and neither adds a key nor changes a key's type.
    pub proof fn lemma_update_frame(self, setting: Setting)
        requires
            self.holds(setting.address, setting.value.kind()),
        ensures
            self.update(setting).values.dom() == self.values.dom(),
            self.update(setting).values[setting.address].shows(setting.value),
            forall|address: Address|
                address != setting.address ==> #[trigger] self.update(setting).values[address]
                    == self.values[address],
            forall|address: Address, kind: Kind| #[trigger]
                self.update(setting).holds(address, kind) == self.holds(address, kind),
    {
        reveal(StoreView::update);
        assert(self.update(setting).values.dom() =~= self.values.dom());
    }

    /// Handing a list to a store that accepts it neither adds a key nor
    /// changes a key's type, and leaves the keys outside the list as they are.
    pub proof fn lemma_apply_frame(self, list: Seq<Setting>)
        requires
            self.accepts(list),
        ensures
            self.apply(list).values.dom() == self.values.dom(),
            forall|address: Address, kind: Kind| #[trigger]
                self.apply(list).holds(address, kind) == self.holds(address, kind),
            forall|address: Address|
                (forall|i: int| 0 <= i < list.len() ==> (#[trigger] list[i]).address != address)
                    ==> #[trigger] self.apply(list).values[address] == self.values[address],
        decreases list.len(),
    {
        if list.len() > 0 {
            let before = list.drop_last();
            assert forall|i: int| 0 <= i < before.len() implies self.holds(
                #[trigger] before[i].address,
                before[i].value.kind(),
            ) by {
                assert(before[i] == list[i]);
            }
            self.lemma_apply_frame(before);
            self.apply(before).lemma_update_frame(list.last());
            assert forall|address: Address|
                (forall|i: int|
                    0 <= i < list.len() ==> (#[trigger] list[i]).address
                        != address) implies #[trigger] self.apply(list).values[address]
                == self.values[address] by {
                assert(list[list.len() - 1].address != address);
                assert forall|i: int| 0 <= i < before.len() implies (#[trigger] before[i]).address
                    != address by {
                    assert(before[i] == list[i]);
                }
            }
        }
    }

    /// After a list without a repeated key was handed to a store that accepts
    /// it, every key of the list shows the value that the list has for it.
    pub proof fn lemma_apply_shows(self, list: Seq<Setting>)
        requires
            self.accepts(list),
            distinct(list),
        ensures
            self.apply(list).shows(list),
        decreases list.len(),
    {
        if list.len() > 0 {
            let before = list.drop_last();
            let last = list.last();
            assert forall|i: int| 0 <= i < before.len() implies self.holds(
                #[trigger] before[i].address,
                before[i].value.kind(),
            ) by {
                assert(before[i] == list[i]);
            }
            assert(distinct(before)) by {
                assert forall|i: int, j: int| 0 <= i < j < before.len() implies before[i].address
                    != before[j].address by {
                    assert(before[i] == list[i] && before[j] == list[j]);
                }
            }
            self.lemma_apply_shows(before);
            self.lemma_apply_frame(before);
            self.apply(before).lemma_update_frame(last);
            assert forall|i: int| 0 <= i < list.len() implies self.apply(list).values.contains_key(
                #[trigger] list[i].address,
            ) && self.apply(list).values[list[i].address].shows(list[i].value) by {
                if i < before.len() {
                    assert(before[i] == list[i]);
                    assert(self.apply(before).values.contains_key(before[i].address));
                    assert(list[i].address != last.address);
                }
            }
        }
    }

    /// Handing a list to a store in which every key of the list shows its
    /// value already changes no value.
    pub proof fn lemma_apply_shown(self, list: Seq<Setting>)
        requires
            self.shows(list),
        ensures
            self.apply(list).values == self.values,
        decreases list.len(),
    {
        if list.len() > 0 {
            let before = list.drop_last();
            let last = list.last();
            assert forall|i: int| 0 <= i < before.len() implies self.values.contains_key(
                #[trigger] before[i].address,
            ) && self.values[before[i].address].shows(before[i].value) by {
                assert(before[i] == list[i]);
            }
            self.lemma_apply_shown(before);
            assert(list[list.len() - 1] == last);
            reveal(StoreView::update);
            assert(self.apply(before).update(last).values =~= self.values);
        }
    }

    /// Handing a list without a NaN to a store in which every key of the list
    /// shows its value already changes nothing and logs no write.
    pub proof fn lemma_apply_settled(self, list: Seq<Setting>)
        requires
            self.shows(list),
            free_of_nan(list),
        ensures
            self.apply(list) == self,
        decreases list.len(),
    {
        if list.len() > 0 {
            let before = list.drop_last();
            let last = list.last();
            assert forall|i: int| 0 <= i < before.len() implies self.values.contains_key(
                #[trigger] before[i].address,
            ) && self.values[before[i].address].shows(before[i].value) by {
                assert(before[i] == list[i]);
            }
            assert(free_of_nan(before)) by {
                assert forall|i: int| 0 <= i < before.len() implies !(#[trigger] before[i]).value.is_nan() by {
                    assert(before[i] == list[i]);
                }
            }
            self.lemma_apply_settled(before);
            assert(list[list.len() - 1] == last);
            assert(!last.value.is_nan());
            reveal(StoreView::update);
        }
    }

    /// Handing the same list over a second time changes no value: after the
    /// first time every key of the list shows its value. Where the list holds
    /// no NaN, the second time logs no write either.
    pub proof fn lemma_apply_twice_settled(self, list: Seq<Setting>)
        requires
            self.accepts(list),
            distinct(list),
            free_of_nan(list),
        ensures
            self.apply(list).apply(list) == self.apply(list),
    {
        self.lemma_apply_shows(list);
        self.apply(list).lemma_apply_settled(list);
    }

    /// Handing the same list over a second time changes no value: after the
    /// first time every key of the list shows its value.
    pub proof fn lemma_apply_twice(self, list: Seq<Setting>)
        requires
            self.accepts(list),
            distinct(list),
        ensures
            self.apply(list).apply(list).values == self.apply(list).values,
    {
        self.lemma_apply_shows(list);
        self.apply(list).lemma_apply_shown(list);
    }

    /// The settings of `list` that would change the key they name.
    pub open spec fn changes(self, list: Seq<Setting>) -> Seq<Setting> {
        list.filter(|setting: Setting| self.changed_by(setting))
    }

    /// Handing a list without a repeated key to a store logs a write for
    /// exactly those settings that differ from the store as it was before, in
    /// the order of the list.
    pub proof fn lemma_apply_writes(self, list: Seq<Setting>)
        requires
            self.accepts(list),
            distinct(list),
        ensures
            self.apply(list).writes == self.writes + self.changes(list),
        decreases list.len(),
    {
        reveal(Seq::filter);
        if list.len() == 0 {
            assert(self.writes + self.changes(list) =~= self.writes);
        } else {
            let before = list.drop_last();
            let last = list.last();
            assert forall|i: int| 0 <= i < before.len() implies self.holds(
                #[trigger] before[i].address,
                before[i].value.kind(),
            ) by {
                assert(before[i] == list[i]);
            }
            assert(distinct(before)) by {
                assert forall|i: int, j: int| 0 <= i < j < before.len() implies before[i].address
                    != before[j].address by {
                    assert(before[i] == list[i] && before[j] == list[j]);
                }
            }
            self.lemma_apply_writes(before);
            self.lemma_apply_frame(before);
            assert forall|i: int| 0 <= i < before.len() implies (#[trigger] before[i]).address
                != last.address by {
                assert(before[i] == list[i]);
            }
            assert(self.apply(before).values[last.address] == self.values[last.address]);
            assert(self.apply(before).changed_by(last) == self.changed_by(last));
            reveal(StoreView::update);
            if self.changed_by(last) {
                assert(self.writes + self.changes(list) =~= (self.writes + self.changes(
                    before,
                )).push(last));
            }
        }
    }
}

/// One key of the database with its current value.
#[derive(Clone, Debug)]
pub struct Entry {
    pub schema: String,
    pub path: String,
    pub key: String,
    pub value: Variant,
}

impl View for Entry {
    type V = Setting;

    open spec fn view(&self) -> Setting {
        Setting {
            address: Address {
                section: Section { schema: self.schema@, path: self.path@ },
                key: self.key@,
            },
            value: self.value@,
        }
    }
}

/// The value that the first entry at `address` holds, if there is one.
pub open spec fn first_value(entries: Seq<Entry>, address: Address) -> Option<VariantView>
    decreases entries.len(),
{
    if entries.len() == 0 {
        None
    } else if entries[0]@.address == address {
        Some(entries[0]@.value)
    } else {
        first_value(entries.drop_first(), address)
    }
}

proof fn lemma_first_value_skip(entries: Seq<Entry>, address: Address, n: int)
    requires
        0 <= n <= entries.len(),
        forall|i: int| 0 <= i < n ==> entries[i]@.address != address,
    ensures
        first_value(entries, address) == first_value(entries.skip(n), address),
    decreases n,
{
    if n > 0 {
        assert(entries.drop_first().skip(n - 1) =~= entries.skip(n));
        lemma_first_value_skip(entries.drop_first(), address, n - 1);
    } else {
        assert(entries.skip(0) =~= entries);
    }
}

proof fn lemma_first_value_found(entries: Seq<Entry>, address: Address, n: int)
    requires
        0 <= n < entries.len(),
        forall|i: int| 0 <= i < n ==> entries[i]@.address != address,
        entries[n]@.address == address,
    ensures
        first_value(entries, address) == Some(entries[n]@.value),
{
    lemma_first_value_skip(entries, address, n);
}

proof fn lemma_first_value_absent(entries: Seq<Entry>, address: Address)
    requires
        forall|i: int| 0 <= i < entries.len() ==> entries[i]@.address != address,
    ensures
        first_value(entries, address) is None,
{
    lemma_first_value_skip(entries, address, entries.len() as int);
}

/// Replacing the value of the first entry at `address` changes what is found
/// there and nothing else.
proof fn lemma_first_value_replace(
    entries: Seq<Entry>,
    changed: Seq<Entry>,
    n: int,
    address: Address,
    other: Address,
)
    requires
        0 <= n < entries.len(),
        forall|i: int| 0 <= i < n ==> entries[i]@.address != address,
        entries[n]@.address == address,
        changed.len() == entries.len(),
        changed[n]@.address == address,
        forall|i: int| 0 <= i < entries.len() && i != n ==> changed[i] == entries[i],
    ensures
        first_value(changed, other) == if other == address {
            Some(changed[n]@.value)
        } else {
            first_value(entries, other)
        },
    decreases n,
{
    if n == 0 {
        assert(changed.drop_first() =~= entries.drop_first());
    } else {
        lemma_first_value_replace(
            entries.drop_first(),
            changed.drop_first(),
            n - 1,
            address,
            other,
        );
    }
}

/// Adding an entry at the end changes what is found at its address only where
/// nothing was found before.
proof fn lemma_first_value_push(entries: Seq<Entry>, entry: Entry, other: Address)
    ensures
        first_value(entries.push(entry), other) == if first_value(entries, other) is Some {
            first_value(entries, other)
        } else if entry@.address == other {
            Some(entry@.value)
        } else {
            None
        },
    decreases entries.len(),
{
    if entries.len() == 0 {
        assert(entries.push(entry).drop_first() =~= entries);
    } else {
        assert(entries.push(entry).drop_first() =~= entries.drop_first().push(entry));
        lemma_first_value_push(entries.drop_first(), entry, other);
    }
}

/// A handle on one section of the database.
#[derive(Clone, Debug)]
pub struct Settings {
    pub schema: String,
    pub path: String,
}

impl View for Settings {
    type V = Section;

    open spec fn view(&self) -> Section {
        Section { schema: self.schema@, path: self.path@ }
    }
}

/// The settings database, as far as presets touch it.
#[derive(Clone, Debug)]
pub struct SettingsStore {
    entries: Vec<Entry>,
    writes: Vec<Entry>,
}

impl View for SettingsStore {
    type V = StoreView;

    closed spec fn view(&self) -> StoreView {
        StoreView {
            values: Map::new(
                |a: Address| first_value(self.entries@, a) is Some,
                |a: Address| first_value(self.entries@, a).unwrap(),
            ),
            writes: self.writes@.map_values(|e: Entry| e@),
        }
    }
}

impl SettingsStore {
    /// A database without keys.
    pub fn new() -> (r: SettingsStore)
        ensures
            r@.values == Map::<Address, VariantView>::empty(),
            r@.writes == Seq::<Setting>::empty(),
    {
        let r = SettingsStore { entries: Vec::new(), writes: Vec::new() };
        assert(r@.values =~= Map::<Address, VariantView>::empty());
        assert(r@.writes =~= Seq::<Setting>::empty());
        r
    }

    fn position(&self, schema: &String, path: &String, key: &String) -> (r: Option<usize>)
        ensures
            match r {
                Some(n) => {
                    &&& n < self.entries.len()
                    &&& self.entries[n as int]@.address == (Section { schema: schema@, path: path@ }).at(key@)
                    &&& forall|i: int|
                        0 <= i < n ==> self.entries[i]@.address != (Section {
                            schema: schema@,
                            path: path@,
                        }).at(key@)
                },
                None => forall|i: int|
                    0 <= i < self.entries.len() ==> self.entries[i]@.address != (Section {
                        schema: schema@,
                        path: path@,
                    }).at(key@),
            },
    {
        let ghost address = (Section { schema: schema@, path: path@ }).at(key@);
        let mut n: usize = 0;
        while n < self.entries.len()
            invariant
                n <= self.entries.len(),
                address == (Section { schema: schema@, path: path@ }).at(key@),
                forall|i: int| 0 <= i < n ==> self.entries[i]@.address != address,
            decreases self.entries.len() - n,
        {
            let entry = &self.entries[n];
            if entry.key == *key && entry.path == *path && entry.schema == *schema {
                return Some(n);
            }
            n += 1;
        }
        None
    }

    /// Sets the current value of a key, creating the key where it is missing.
    /// This is how the database is filled; it logs no write.
    pub fn insert(&mut self, schema: &str, path: &str, key: &str, value: Variant)
        ensures
            final(self)@.values == old(self)@.values.insert(
                (Section { schema: schema@, path: path@ }).at(key@),
                value@,
            ),
            final(self)@.writes == old(self)@.writes,
    {
        let schema = schema.to_owned();
        let path = path.to_owned();
        let key = key.to_owned();
        let ghost address = (Section { schema: schema@, path: path@ }).at(key@);
        let found = self.position(&schema, &path, &key);
        let entry = Entry { schema, path, key, value };
        match found {
            Some(n) => {
                self.entries.set(n, entry);
                assert forall|a: Address| #[trigger]
                    first_value(self.entries@, a) == if a == address {
                        Some(value@)
                    } else {
                        first_value(old(self).entries@, a)
                    } by {
                    lemma_first_value_replace(old(self).entries@, self.entries@, n as int, address, a);
                }
            },
            None => {
                self.entries.push(entry);
                assert forall|a: Address| #[trigger]
                    first_value(self.entries@, a) == if a == address {
                        Some(value@)
                    } else {
                        first_value(old(self).entries@, a)
                    } by {
                    lemma_first_value_push(old(self).entries@, entry, a);
                    lemma_first_value_absent(old(self).entries@, address);
                }
            },
        }
        assert(self@.values =~= old(self)@.values.insert(address, value@));
    }

    /// The current value of a key, if the key exists.
    pub fn get(&self, settings: &Settings, key: &str) -> (r: Option<&Variant>)
        ensures
            match r {
                Some(v) => self@.values.contains_key(settings@.at(key@)) && self@.values[settings@.at(
                    key@,
                )] == v@,
                None => !self@.values.contains_key(settings@.at(key@)),
            },
    {
        let key = key.to_owned();
        match self.position(&settings.schema, &settings.path, &key) {
            Some(n) => {
                proof {
                    lemma_first_value_found(self.entries@, settings@.at(key@), n as int);
                }
                Some(&self.entries[n].value)
            },
            None => {
                proof {
                    lemma_first_value_absent(self.entries@, settings@.at(key@));
                }
                None
            },
        }
    }

    /// Writes `value` to an existing key and logs the write.
    pub fn write(&mut self, settings: &Settings, key: &str, value: Variant)
        requires
            old(self)@.values.contains_key(settings@.at(key@)),
        ensures
            final(self)@.values == old(self)@.values.insert(settings@.at(key@), value@),
            final(self)@.writes == old(self)@.writes.push(
                Setting { address: settings@.at(key@), value: value@ },
            ),
    {
        let ghost address = settings@.at(key@);
        let logged = Entry {
            schema: settings.schema.clone(),
            path: settings.path.clone(),
            key: key.to_owned(),
            value: value.duplicate(),
        };
        self.insert(settings.schema.as_str(), settings.path.as_str(), key, value);
        self.writes.push(logged);
        assert(self@.writes =~= old(self)@.writes.push(Setting { address, value: value@ }));
    }

    /// The writes made so far, oldest first.
    pub fn writes(&self) -> (r: &Vec<Entry>)
        ensures
            r@.map_values(|e: Entry| e@) == self@.writes,
    {
        &self.writes
    }

    /// Forgets the writes made so far.
    pub fn clear_writes(&mut self)
        ensures
            final(self)@.values == old(self)@.values,
            final(self)@.writes == Seq::<Setting>::empty(),
    {
        self.writes = Vec::new();
        assert(self@.writes =~= Seq::<Setting>::empty());
    }
}

impl Settings {
    /// A handle on the section of `schema` at `path`.
    pub fn with_path(schema: &str, path: &str) -> (r: Settings)
        ensures
            r@ == (Section { schema: schema@, path: path@ }),
    {
        Settings { schema: schema.to_owned(), path: path.to_owned() }
    }

    /// A handle on the section of a schema that has a path of its own.
    pub fn new(schema: &str) -> (r: Settings)
        ensures
            r@ == (Section { schema: schema@, path: Seq::<char>::empty() }),
    {
        Settings { schema: schema.to_owned(), path: String::new() }
    }

    pub fn get_boolean(&self, store: &SettingsStore, key: &str) -> (r: Option<bool>)
        ensures
            r == (if store@.holds(self@.at(key@), Kind::Boolean) {
                Some(store@.values[self@.at(key@)]->Boolean_0)
            } else {
                None
            }),
    {
        match store.get(self, key) {
            Some(Variant::Boolean(b)) => Some(*b),
            _ => None,
        }
    }

    pub fn get_int(&self, store: &SettingsStore, key: &str) -> (r: Option<i32>)
        ensures
            r == (if store@.holds(self@.at(key@), Kind::Int32) {
                Some(store@.values[self@.at(key@)]->Int32_0)
            } else {
                None
            }),
    {
        match store.get(self, key) {
            Some(Variant::Int32(i)) => Some(*i),
            _ => None,
        }
    }

    pub fn get_double(&self, store: &SettingsStore, key: &str) -> (r: Option<Double>)
        ensures
            r is Some <==> store@.holds(self@.at(key@), Kind::Double),
            r is Some ==> r.unwrap().bits == store@.values[self@.at(key@)]->Double_0,
    {
        match store.get(self, key) {
            Some(Variant::Double(d)) => Some(*d),
            _ => None,
        }
    }

    pub fn get_string(&self, store: &SettingsStore, key: &str) -> (r: Option<String>)
        ensures
            r is Some <==> store@.holds(self@.at(key@), Kind::Text),
            r is Some ==> r.unwrap()@ == store@.values[self@.at(key@)]->Text_0,
    {
        match store.get(self, key) {
            Some(Variant::Text(s)) => Some(s.clone()),
            _ => None,
        }
    }

    /// The printed form of a value of another type than the four above.
    pub fn get_printed(&self, store: &SettingsStore, key: &str) -> (r: Option<String>)
        ensures
            r is Some <==> store@.holds(self@.at(key@), Kind::Other),
            r is Some ==> r.unwrap()@ == store@.values[self@.at(key@)]->Other_0,
    {
        match store.get(self, key) {
            Some(Variant::Other(s)) => Some(s.clone()),
            _ => None,
        }
    }
}

} // verus!
