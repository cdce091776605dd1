//! The effect events of a map as the map stores them: every group names its data by
//! index into one shared table, in which no entry occurs twice.

use vstd::prelude::*;
use indexmap::IndexSet;
use crate::distribution::DistributionType;
use crate::easing::Easing;
use crate::filter::Filter;
use crate::fx::{FxEventBox, FxEventContainer, FxEventData, FxEventGroup};
use crate::group::TransitionType;
use crate::scalar::Scalar;
use crate::utils::LooseBool;

verus! {

/// What tells two entries of data apart: the keys of the two quantities, and for each of
/// the two open enumerations whether the value is unknown, and its wire value.
pub type DataKey = (u32, u8, i32, u8, i32, u32);

/// An effect group as a map stores it: with indices into the table of data in place of
/// the data.
#[derive(Debug, Clone, PartialEq)]
pub struct FxEventGroupRaw {
    pub filter: Filter,
    pub beat_dist_type: DistributionType,
    pub beat_dist_value: Scalar,
    pub fx_dist_type: DistributionType,
    pub fx_dist_value: Scalar,
    pub fx_dist_effect_first: LooseBool,
    pub fx_dist_easing: Option<Easing>,
    /// For each entry of the group, its index in the table of data.
    pub data_ids: Vec<usize>,
}

/// An effect box as a map stores it.
#[derive(Debug, Clone, PartialEq)]
pub struct FxEventBoxRaw {
    pub beat: Scalar,
    pub group_id: i32,
    pub groups: Vec<FxEventGroupRaw>,
}

/// The effect events of a map as the map stores them.
#[derive(Debug, Clone, PartialEq)]
pub struct FxEventStore {
    pub event_boxes: Vec<FxEventBoxRaw>,
    /// The table of data that the groups index.
    pub event_data: Vec<FxEventData>,
}

impl Default for FxEventStore {
    /// No boxes and an empty table.
    fn default() -> (store: FxEventStore)
        ensures
            store.event_boxes@ == Seq::<FxEventBoxRaw>::empty(),
            store.event_data@ == Seq::<FxEventData>::empty(),
    {
        FxEventStore { event_boxes: Vec::new(), event_data: Vec::new() }
    }
}

/// A group names an entry that the table of data does not hold.
#[derive(Debug, Clone, Copy, PartialEq, Eq, Structural)]
pub struct MissingData {
    /// The index that is not below the length of the table.
    pub id: usize,
}

/// The key of an entry of data.
pub open spec fn key_of(data: FxEventData) -> DataKey {
    (
        data.beat_offset.key_spec(),
        if data.transition_type is Unknown {
            1u8
        } else {
            0u8
        },
        data.transition_type.raw_spec() as i32,
        if data.easing is Unknown {
            1u8
        } else {
            0u8
        },
        data.easing.raw_spec() as i32,
        data.value.key_spec(),
    )
}

/// Whether the table holds an entry with the key.
pub open spec fn holds(table: Seq<FxEventData>, key: DataKey) -> bool {
    exists|i: int| 0 <= i < table.len() && key_of(#[trigger] table[i]) == key
}

/// Whether no two entries of the table have one key.
pub open spec fn distinct_keys(table: Seq<FxEventData>) -> bool {
    forall|i: int, j: int|
        0 <= i < j < table.len() ==> key_of(#[trigger] table[i]) != key_of(#[trigger] table[j])
}

/// The table after one entry has been entered: unchanged if it holds the key of the entry,
/// and with the entry at its end if not.
pub open spec fn interned(table: Seq<FxEventData>, data: FxEventData) -> Seq<FxEventData> {
    if holds(table, key_of(data)) {
        table
    } else {
        table.push(data)
    }
}

/// The table after the entries of a group have been entered, from the first to the last.
pub open spec fn interned_run(
    table: Seq<FxEventData>,
    run: Seq<FxEventData>,
) -> Seq<FxEventData>
    decreases run.len(),
{
    if run.len() == 0 {
        table
    } else {
        interned(interned_run(table, run.drop_last()), run.last())
    }
}

/// The table after the groups of a box have been entered, from the first to the last.
pub open spec fn interned_groups(
    table: Seq<FxEventData>,
    groups: Seq<FxEventGroup>,
) -> Seq<FxEventData>
    decreases groups.len(),
{
    if groups.len() == 0 {
        table
    } else {
        interned_run(interned_groups(table, groups.drop_last()), groups.last().data@)
    }
}

/// The table after the boxes of a map have been entered, from the first to the last.
pub open spec fn interned_boxes(
    table: Seq<FxEventData>,
    boxes: Seq<FxEventBox>,
) -> Seq<FxEventData>
    decreases boxes.len(),
{
    if boxes.len() == 0 {
        table
    } else {
        interned_groups(interned_boxes(table, boxes.drop_last()), boxes.last().groups@)
    }
}

/// Whether an index names, in the table, an entry with the key of the given data.
pub open spec fn names(table: Seq<FxEventData>, id: usize, data: FxEventData) -> bool {
    id < table.len() && key_of(table[id as int]) == key_of(data)
}

/// Whether a stored group and a group agree in all but their data.
pub open spec fn same_head(group: FxEventGroup, raw: FxEventGroupRaw) -> bool {
    &&& raw.filter == group.filter
    &&& raw.beat_dist_type == group.beat_dist_type
    &&& raw.beat_dist_value == group.beat_dist_value
    &&& raw.fx_dist_type == group.fx_dist_type
    &&& raw.fx_dist_value == group.fx_dist_value
    &&& raw.fx_dist_effect_first == group.fx_dist_effect_first
    &&& raw.fx_dist_easing == group.fx_dist_easing
    &&& raw.data_ids@.len() == group.data@.len()
}

/// Whether a stored group stands for a group: every index names an entry with the key of
/// the entry in its place.
pub open spec fn group_stored(
    group: FxEventGroup,
    raw: FxEventGroupRaw,
    table: Seq<FxEventData>,
) -> bool {
    &&& same_head(group, raw)
    &&& forall|k: int|
        0 <= k < group.data@.len() ==> names(table, #[trigger] raw.data_ids@[k], group.data@[k])
}

/// Whether a stored box stands for a box.
pub open spec fn box_stored(
    event_box: FxEventBox,
    raw: FxEventBoxRaw,
    table: Seq<FxEventData>,
) -> bool {
    &&& raw.beat == event_box.beat
    &&& raw.group_id == event_box.group_id
    &&& raw.groups@.len() == event_box.groups@.len()
    &&& forall|g: int|
        0 <= g < event_box.groups@.len() ==> group_stored(
            event_box.groups@[g],
            #[trigger] raw.groups@[g],
            table,
        )
}

/// Whether a store stands for the boxes of a map: its table is the table after all boxes
/// have been entered, and every stored box stands for the box in its place.
pub open spec fn stored(boxes: Seq<FxEventBox>, store: FxEventStore) -> bool {
    &&& store.event_data@ == interned_boxes(Seq::empty(), boxes)
    &&& distinct_keys(store.event_data@)
    &&& store.event_boxes@.len() == boxes.len()
    &&& forall|b: int|
        0 <= b < boxes.len() ==> box_stored(
            boxes[b],
            #[trigger] store.event_boxes@[b],
            store.event_data@,
        )
}

/// `indexmap::IndexSet`, a hash set that keeps its values in the order of insertion.
/// Nothing is known of a set but what the functions below say.
#[verifier::external_type_specification]
#[verifier::external_body]
#[verifier::reject_recursive_types(T)]
#[verifier::reject_recursive_types(S)]
pub struct ExIndexSet<T, S>(indexmap::IndexSet<T, S>);

/// The keys that a set holds, in the order in which they were inserted.
pub uninterp spec fn keys_of(set: IndexSet<DataKey>) -> Seq<DataKey>;

/// `IndexSet::new`: a set that holds nothing.
#[verifier::external_body]
fn new_key_set() -> (set: IndexSet<DataKey>)
    ensures
        keys_of(set) == Seq::<DataKey>::empty(),
{
    IndexSet::new()
}

/// `IndexSet::get_index_of`: the index of the key in the order of insertion, if the set
/// holds the key.
#[verifier::external_body]
fn index_of_key(set: &IndexSet<DataKey>, key: &DataKey) -> (index: Option<usize>)
    ensures
        match index {
            Some(i) => i < keys_of(*set).len() && keys_of(*set)[i as int] == *key,
            None => !keys_of(*set).contains(*key),
        },
{
    set.get_index_of(key)
}

/// `IndexSet::len`: the number of keys that the set holds.
#[verifier::external_body]
fn count_keys(set: &IndexSet<DataKey>) -> (len: usize)
    ensures
        len == keys_of(*set).len(),
{
    set.len()
}

/// `IndexSet::insert`: a key that the set does not hold is added behind all others, and
/// a key that it holds leaves the set as it is.
#[verifier::external_body]
fn insert_key(set: &mut IndexSet<DataKey>, key: DataKey) -> (fresh: bool)
    ensures
        fresh == !keys_of(*old(set)).contains(key),
        keys_of(*final(set)) == if fresh {
            keys_of(*old(set)).push(key)
        } else {
            keys_of(*old(set))
        },
{
    set.insert(key)
}

/// Whether a set holds the keys of a table, entry by entry.
spec fn linked(keys: IndexSet<DataKey>, table: Seq<FxEventData>) -> bool {
    &&& keys_of(keys).len() == table.len()
    &&& forall|i: int| 0 <= i < table.len() ==> #[trigger] keys_of(keys)[i] == key_of(table[i])
}

/// Returns the key of an entry of data.
pub fn data_key(data: &FxEventData) -> (key: DataKey)
    ensures
        key == key_of(*data),
{
    let transition_unknown: u8 = match data.transition_type {
        TransitionType::Unknown(_) => 1,
        _ => 0,
    };
    let easing_unknown: u8 = match data.easing {
        Easing::Unknown(_) => 1,
        _ => 0,
    };
    (
        data.beat_offset.key(),
        transition_unknown,
        data.transition_type.to_raw(),
        easing_unknown,
        data.easing.to_raw(),
        data.value.key(),
    )
}

/// Enters one entry into the table and returns its index.
fn intern_data(
    data: &FxEventData,
    keys: &mut IndexSet<DataKey>,
    table: &mut Vec<FxEventData>,
) -> (id: usize)
    requires
        linked(*old(keys), old(table)@),
        distinct_keys(old(table)@),
    ensures
        linked(*final(keys), final(table)@),
        distinct_keys(final(table)@),
        final(table)@ == interned(old(table)@, *data),
        old(table)@.is_prefix_of(final(table)@),
        names(final(table)@, id, *data),
{
    let key = data_key(data);
    let ghost before = table@;
    let ghost keys_before = keys_of(*keys);
    match index_of_key(keys, &key) {
        Some(index) => {
            assert(key_of(before[index as int]) == key);
            index
        },
        None => {
            assert(!holds(before, key)) by {
                if holds(before, key) {
                    let i = choose|i: int| 0 <= i < before.len() && key_of(#[trigger] before[i]) == key;
                    assert(keys_before[i] == key);
                }
            }
            let index = count_keys(keys);
            insert_key(keys, key);
            table.push(*data);
            assert(table@[index as int] == *data);
            index
        },
    }
}

/// What an index names in a table, it names in every table that the table begins.
proof fn lemma_names_in_longer_table(
    shorter: Seq<FxEventData>,
    longer: Seq<FxEventData>,
    id: usize,
    data: FxEventData,
)
    requires
        shorter.is_prefix_of(longer),
        names(shorter, id, data),
    ensures
        names(longer, id, data),
{
    assert(shorter[id as int] == longer[id as int]);
}

/// A stored group that stands for a group over a table does so over every table that
/// the table begins.
proof fn lemma_group_stored_in_longer_table(
    group: FxEventGroup,
    raw: FxEventGroupRaw,
    shorter: Seq<FxEventData>,
    longer: Seq<FxEventData>,
)
    requires
        shorter.is_prefix_of(longer),
        group_stored(group, raw, shorter),
    ensures
        group_stored(group, raw, longer),
{
    assert forall|k: int| 0 <= k < group.data@.len() implies names(
        longer,
        #[trigger] raw.data_ids@[k],
        group.data@[k],
    ) by {
        lemma_names_in_longer_table(shorter, longer, raw.data_ids@[k], group.data@[k]);
    }
}

/// A stored box that stands for a box over a table does so over every table that the
/// table begins.
proof fn lemma_box_stored_in_longer_table(
    event_box: FxEventBox,
    raw: FxEventBoxRaw,
    shorter: Seq<FxEventData>,
    longer: Seq<FxEventData>,
)
    requires
        shorter.is_prefix_of(longer),
        box_stored(event_box, raw, shorter),
    ensures
        box_stored(event_box, raw, longer),
{
    assert forall|g: int| 0 <= g < event_box.groups@.len() implies group_stored(
        event_box.groups@[g],
        #[trigger] raw.groups@[g],
        longer,
    ) by {
        lemma_group_stored_in_longer_table(event_box.groups@[g], raw.groups@[g], shorter, longer);
    }
}

/// Enters the data of a group into the table and returns their indices.
fn intern_run(
    data: &Vec<FxEventData>,
    keys: &mut IndexSet<DataKey>,
    table: &mut Vec<FxEventData>,
) -> (ids: Vec<usize>)
    requires
        linked(*old(keys), old(table)@),
        distinct_keys(old(table)@),
    ensures
        linked(*final(keys), final(table)@),
        distinct_keys(final(table)@),
        final(table)@ == interned_run(old(table)@, data@),
        old(table)@.is_prefix_of(final(table)@),
        ids@.len() == data@.len(),
        forall|k: int| 0 <= k < data@.len() ==> names(final(table)@, #[trigger] ids@[k], data@[k]),
{
    let ghost start = table@;
    let mut ids: Vec<usize> = Vec::new();
    let mut k: usize = 0;
    assert(data@.take(0) =~= Seq::<FxEventData>::empty());
    while k < data.len()
        invariant
            k <= data@.len(),
            linked(*keys, table@),
            distinct_keys(table@),
            table@ == interned_run(start, data@.take(k as int)),
            start.is_prefix_of(table@),
            ids@.len() == k,
            forall|j: int| 0 <= j < k ==> names(table@, #[trigger] ids@[j], data@[j]),
        decreases data@.len() - k,
    {
        let ghost before = table@;
        let ghost ids_before = ids@;
        let id = intern_data(&data[k], keys, table);
        ids.push(id);
        proof {
            assert(data@.take(k + 1).drop_last() =~= data@.take(k as int));
            assert(data@.take(k + 1).last() == data@[k as int]);
            assert forall|j: int| 0 <= j < k + 1 implies names(
                table@,
                #[trigger] ids@[j],
                data@[j],
            ) by {
                if j < k {
                    assert(ids@[j] == ids_before[j]);
                    lemma_names_in_longer_table(before, table@, ids_before[j], data@[j]);
                }
            }
        }
        k += 1;
    }
    assert(data@.take(k as int) =~= data@);
    ids
}

/// Enters the groups of a box into the table and returns the groups as a map stores them.
fn intern_groups(
    groups: &Vec<FxEventGroup>,
    keys: &mut IndexSet<DataKey>,
    table: &mut Vec<FxEventData>,
) -> (raws: Vec<FxEventGroupRaw>)
    requires
        linked(*old(keys), old(table)@),
        distinct_keys(old(table)@),
    ensures
        linked(*final(keys), final(table)@),
        distinct_keys(final(table)@),
        final(table)@ == interned_groups(old(table)@, groups@),
        old(table)@.is_prefix_of(final(table)@),
        raws@.len() == groups@.len(),
        forall|g: int|
            0 <= g < groups@.len() ==> group_stored(groups@[g], #[trigger] raws@[g], final(table)@),
{
    let ghost start = table@;
    let mut raws: Vec<FxEventGroupRaw> = Vec::new();
    let mut g: usize = 0;
    assert(groups@.take(0) =~= Seq::<FxEventGroup>::empty());
    while g < groups.len()
        invariant
            g <= groups@.len(),
            linked(*keys, table@),
            distinct_keys(table@),
            table@ == interned_groups(start, groups@.take(g as int)),
            start.is_prefix_of(table@),
            raws@.len() == g,
            forall|j: int| 0 <= j < g ==> group_stored(groups@[j], #[trigger] raws@[j], table@),
        decreases groups@.len() - g,
    {
        let ghost before = table@;
        let ghost raws_before = raws@;
        let group = &groups[g];
        let data_ids = intern_run(&group.data, keys, table);
        raws.push(
            FxEventGroupRaw {
                filter: group.filter,
                beat_dist_type: group.beat_dist_type,
                beat_dist_value: group.beat_dist_value,
                fx_dist_type: group.fx_dist_type,
                fx_dist_value: group.fx_dist_value,
                fx_dist_effect_first: group.fx_dist_effect_first,
                fx_dist_easing: group.fx_dist_easing,
                data_ids,
            },
        );
        proof {
            assert(groups@.take(g + 1).drop_last() =~= groups@.take(g as int));
            assert(groups@.take(g + 1).last() == groups@[g as int]);
            assert forall|j: int| 0 <= j < g + 1 implies group_stored(
                groups@[j],
                #[trigger] raws@[j],
                table@,
            ) by {
                if j < g {
                    assert(raws@[j] == raws_before[j]);
                    lemma_group_stored_in_longer_table(groups@[j], raws_before[j], before, table@);
                }
            }
        }
        g += 1;
    }
    assert(groups@.take(g as int) =~= groups@);
    raws
}

impl FxEventContainer {
    /// Returns the boxes as a map stores them: the data of all groups are entered into
    /// one table, box by box, group by group and entry by entry; an entry whose key the
    /// table already holds is not entered again, and every group names its data by
    /// their indices in the table.
    pub fn to_store(&self) -> (store: FxEventStore)
        ensures
            stored(self.event_boxes@, store),
    {
        let mut keys = new_key_set();
        let mut table: Vec<FxEventData> = Vec::new();
        let mut raws: Vec<FxEventBoxRaw> = Vec::new();
        let boxes = &self.event_boxes;
        let mut b: usize = 0;
        assert(boxes@.take(0) =~= Seq::<FxEventBox>::empty());
        while b < boxes.len()
            invariant
                b <= boxes@.len(),
                linked(keys, table@),
                distinct_keys(table@),
                table@ == interned_boxes(Seq::empty(), boxes@.take(b as int)),
                raws@.len() == b,
                forall|j: int| 0 <= j < b ==> box_stored(boxes@[j], #[trigger] raws@[j], table@),
            decreases boxes@.len() - b,
        {
            let ghost before = table@;
            let ghost raws_before = raws@;
            let event_box = &boxes[b];
            let groups = intern_groups(&event_box.groups, &mut keys, &mut table);
            raws.push(FxEventBoxRaw { beat: event_box.beat, group_id: event_box.group_id, groups });
            proof {
                assert(boxes@.take(b + 1).drop_last() =~= boxes@.take(b as int));
                assert(boxes@.take(b + 1).last() == boxes@[b as int]);
                assert forall|j: int| 0 <= j < b + 1 implies box_stored(
                    boxes@[j],
                    #[trigger] raws@[j],
                    table@,
                ) by {
                    if j < b {
                        assert(raws@[j] == raws_before[j]);
                        lemma_box_stored_in_longer_table(boxes@[j], raws_before[j], before, table@);
                    }
                }
            }
            b += 1;
        }
        assert(boxes@.take(b as int) =~= boxes@);
        FxEventStore { event_boxes: raws, event_data: table }
    }
}

/// The first index of a group, in order, that is not below the length of the table.
pub open spec fn first_missing_id(ids: Seq<usize>, len: nat) -> Option<usize>
    decreases ids.len(),
{
    if ids.len() == 0 {
        None
    } else {
        match first_missing_id(ids.drop_last(), len) {
            Some(id) => Some(id),
            None => if ids.last() >= len {
                Some(ids.last())
            } else {
                None
            },
        }
    }
}

/// The first index of the groups of a box, in order, that is not below the length of the
/// table.
pub open spec fn first_missing_in_groups(groups: Seq<FxEventGroupRaw>, len: nat) -> Option<usize>
    decreases groups.len(),
{
    if groups.len() == 0 {
        None
    } else {
        match first_missing_in_groups(groups.drop_last(), len) {
            Some(id) => Some(id),
            None => first_missing_id(groups.last().data_ids@, len),
        }
    }
}

/// The first index of the boxes of a store, in order, that is not below the length of
/// the table.
pub open spec fn first_missing_in_boxes(boxes: Seq<FxEventBoxRaw>, len: nat) -> Option<usize>
    decreases boxes.len(),
{
    if boxes.len() == 0 {
        None
    } else {
        match first_missing_in_boxes(boxes.drop_last(), len) {
            Some(id) => Some(id),
            None => first_missing_in_groups(boxes.last().groups@, len),
        }
    }
}

/// Whether a group holds what a stored group names: for every index, the entry of the
/// table at that index.
pub open spec fn group_read(
    raw: FxEventGroupRaw,
    group: FxEventGroup,
    table: Seq<FxEventData>,
) -> bool {
    &&& same_head(group, raw)
    &&& forall|k: int|
        0 <= k < raw.data_ids@.len() ==> (#[trigger] raw.data_ids@[k]) < table.len()
            && group.data@[k] == table[raw.data_ids@[k] as int]
}

/// Whether a box holds what a stored box names.
pub open spec fn box_read(
    raw: FxEventBoxRaw,
    event_box: FxEventBox,
    table: Seq<FxEventData>,
) -> bool {
    &&& raw.beat == event_box.beat
    &&& raw.group_id == event_box.group_id
    &&& raw.groups@.len() == event_box.groups@.len()
    &&& forall|g: int|
        0 <= g < raw.groups@.len() ==> group_read(
            #[trigger] raw.groups@[g],
            event_box.groups@[g],
            table,
        )
}

/// Whether the boxes hold what a store names.
pub open spec fn read(store: FxEventStore, boxes: Seq<FxEventBox>) -> bool {
    &&& boxes.len() == store.event_boxes@.len()
    &&& forall|b: int|
        0 <= b < boxes.len() ==> box_read(
            #[trigger] store.event_boxes@[b],
            boxes[b],
            store.event_data@,
        )
}

/// A missing index that is first among the first indices of a group is first in the
/// whole group.
proof fn lemma_missing_id_stays(ids: Seq<usize>, len: nat, upto: int)
    requires
        0 <= upto <= ids.len(),
        first_missing_id(ids.take(upto), len) is Some,
    ensures
        first_missing_id(ids, len) == first_missing_id(ids.take(upto), len),
    decreases ids.len() - upto,
{
    if upto == ids.len() {
        assert(ids.take(upto) =~= ids);
    } else {
        assert(ids.take(upto + 1).drop_last() =~= ids.take(upto));
        lemma_missing_id_stays(ids, len, upto + 1);
    }
}

/// A missing index that is first among the first groups of a box is first in the whole
/// box.
proof fn lemma_missing_in_groups_stays(groups: Seq<FxEventGroupRaw>, len: nat, upto: int)
    requires
        0 <= upto <= groups.len(),
        first_missing_in_groups(groups.take(upto), len) is Some,
    ensures
        first_missing_in_groups(groups, len) == first_missing_in_groups(groups.take(upto), len),
    decreases groups.len() - upto,
{
    if upto == groups.len() {
        assert(groups.take(upto) =~= groups);
    } else {
        assert(groups.take(upto + 1).drop_last() =~= groups.take(upto));
        lemma_missing_in_groups_stays(groups, len, upto + 1);
    }
}

/// A missing index that is first among the first boxes of a store is first in the whole
/// store.
proof fn lemma_missing_in_boxes_stays(boxes: Seq<FxEventBoxRaw>, len: nat, upto: int)
    requires
        0 <= upto <= boxes.len(),
        first_missing_in_boxes(boxes.take(upto), len) is Some,
    ensures
        first_missing_in_boxes(boxes, len) == first_missing_in_boxes(boxes.take(upto), len),
    decreases boxes.len() - upto,
{
    if upto == boxes.len() {
        assert(boxes.take(upto) =~= boxes);
    } else {
        assert(boxes.take(upto + 1).drop_last() =~= boxes.take(upto));
        lemma_missing_in_boxes_stays(boxes, len, upto + 1);
    }
}

/// Returns the entries that the indices of a group name, or the first index that names
/// none.
fn resolve_ids(
    ids: &Vec<usize>,
    table: &Vec<FxEventData>,
) -> (res: Result<Vec<FxEventData>, MissingData>)
    ensures
        match res {
            Ok(data) => {
                &&& first_missing_id(ids@, table@.len()) is None
                &&& data@.len() == ids@.len()
                &&& forall|k: int|
                    0 <= k < ids@.len() ==> (#[trigger] ids@[k]) < table@.len() && data@[k]
                        == table@[ids@[k] as int]
            },
            Err(missing) => first_missing_id(ids@, table@.len()) == Some(missing.id),
        },
{
    let mut data: Vec<FxEventData> = Vec::new();
    let mut k: usize = 0;
    assert(ids@.take(0) =~= Seq::<usize>::empty());
    while k < ids.len()
        invariant
            k <= ids@.len(),
            first_missing_id(ids@.take(k as int), table@.len()) is None,
            data@.len() == k,
            forall|j: int|
                0 <= j < k ==> (#[trigger] ids@[j]) < table@.len() && data@[j] == table@[ids@[j] as int],
        decreases ids@.len() - k,
    {
        let id = ids[k];
        proof {
            assert(ids@.take(k + 1).drop_last() =~= ids@.take(k as int));
            assert(ids@.take(k + 1).last() == id);
        }
        if id >= table.len() {
            proof {
                lemma_missing_id_stays(ids@, table@.len(), k + 1);
            }
            return Err(MissingData { id });
        }
        data.push(table[id]);
        k += 1;
    }
    assert(ids@.take(k as int) =~= ids@);
    Ok(data)
}

/// Returns the groups that the stored groups of a box name, or the first index that
/// names no entry.
fn resolve_groups(
    raws: &Vec<FxEventGroupRaw>,
    table: &Vec<FxEventData>,
) -> (res: Result<Vec<FxEventGroup>, MissingData>)
    ensures
        match res {
            Ok(groups) => {
                &&& first_missing_in_groups(raws@, table@.len()) is None
                &&& groups@.len() == raws@.len()
                &&& forall|g: int|
                    0 <= g < raws@.len() ==> group_read(#[trigger] raws@[g], groups@[g], table@)
            },
            Err(missing) => first_missing_in_groups(raws@, table@.len()) == Some(missing.id),
        },
{
    let mut groups: Vec<FxEventGroup> = Vec::new();
    let mut g: usize = 0;
    assert(raws@.take(0) =~= Seq::<FxEventGroupRaw>::empty());
    while g < raws.len()
        invariant
            g <= raws@.len(),
            first_missing_in_groups(raws@.take(g as int), table@.len()) is None,
            groups@.len() == g,
            forall|j: int| 0 <= j < g ==> group_read(#[trigger] raws@[j], groups@[j], table@),
        decreases raws@.len() - g,
    {
        let raw = &raws[g];
        proof {
            assert(raws@.take(g + 1).drop_last() =~= raws@.take(g as int));
            assert(raws@.take(g + 1).last() == raws@[g as int]);
        }
        let data = match resolve_ids(&raw.data_ids, table) {
            Ok(data) => data,
            Err(missing) => {
                proof {
                    lemma_missing_in_groups_stays(raws@, table@.len(), g + 1);
                }
                return Err(missing);
            },
        };
        groups.push(
            FxEventGroup {
                filter: raw.filter,
                beat_dist_type: raw.beat_dist_type,
                beat_dist_value: raw.beat_dist_value,
                fx_dist_type: raw.fx_dist_type,
                fx_dist_value: raw.fx_dist_value,
                fx_dist_effect_first: raw.fx_dist_effect_first,
                fx_dist_easing: raw.fx_dist_easing,
                data,
            },
        );
        g += 1;
    }
    assert(raws@.take(g as int) =~= raws@);
    Ok(groups)
}

impl FxEventContainer {
    /// Returns the boxes that a store names: every index of a group is replaced by the
    /// entry of the table at that index. Where an index names no entry, the first such
    /// index, box by box, group by group and index by index, is reported.
    pub fn from_store(store: &FxEventStore) -> (res: Result<FxEventContainer, MissingData>)
        ensures
            match res {
                Ok(container) => {
                    &&& first_missing_in_boxes(store.event_boxes@, store.event_data@.len()) is None
                    &&& read(*store, container.event_boxes@)
                },
                Err(missing) => first_missing_in_boxes(
                    store.event_boxes@,
                    store.event_data@.len(),
                ) == Some(missing.id),
            },
    {
        let raws = &store.event_boxes;
        let table = &store.event_data;
        let mut boxes: Vec<FxEventBox> = Vec::new();
        let mut b: usize = 0;
        assert(raws@.take(0) =~= Seq::<FxEventBoxRaw>::empty());
        while b < raws.len()
            invariant
                raws@ == store.event_boxes@,
                table@ == store.event_data@,
                b <= raws@.len(),
                first_missing_in_boxes(raws@.take(b as int), table@.len()) is None,
                boxes@.len() == b,
                forall|j: int| 0 <= j < b ==> box_read(#[trigger] raws@[j], boxes@[j], table@),
            decreases raws@.len() - b,
        {
            let raw = &raws[b];
            proof {
                assert(raws@.take(b + 1).drop_last() =~= raws@.take(b as int));
                assert(raws@.take(b + 1).last() == raws@[b as int]);
            }
            let groups = match resolve_groups(&raw.groups, table) {
                Ok(groups) => groups,
                Err(missing) => {
                    proof {
                        lemma_missing_in_boxes_stays(raws@, table@.len(), b + 1);
                    }
                    return Err(missing);
                },
            };
            boxes.push(FxEventBox { beat: raw.beat, group_id: raw.group_id, groups });
            b += 1;
        }
        assert(raws@.take(b as int) =~= raws@);
        Ok(FxEventContainer { event_boxes: boxes })
    }
}

/// Whether both quantities of an entry are their own keys, so that the entry is the only
/// one with its key.
pub open spec fn exact(data: FxEventData) -> bool {
    data.beat_offset.is_canonical() && data.value.is_canonical()
}

/// Whether an entry agrees with another in its key, and is the same entry where both are
/// exact.
pub open spec fn same_entry_key(data: FxEventData, other: FxEventData) -> bool {
    &&& key_of(other) == key_of(data)
    &&& exact(other) && exact(data) ==> other == data
}

/// Whether a group agrees with another in everything but the data, and entry by entry
/// in the keys of the data.
pub open spec fn same_group_keys(group: FxEventGroup, other: FxEventGroup) -> bool {
    &&& other.filter == group.filter
    &&& other.beat_dist_type == group.beat_dist_type
    &&& other.beat_dist_value == group.beat_dist_value
    &&& other.fx_dist_type == group.fx_dist_type
    &&& other.fx_dist_value == group.fx_dist_value
    &&& other.fx_dist_effect_first == group.fx_dist_effect_first
    &&& other.fx_dist_easing == group.fx_dist_easing
    &&& other.data@.len() == group.data@.len()
    &&& forall|k: int|
        0 <= k < group.data@.len() ==> same_entry_key(group.data@[k], #[trigger] other.data@[k])
}

/// Whether a box agrees with another in its beat, its group of lights, and group by
/// group as groups do.
pub open spec fn same_box_keys(event_box: FxEventBox, other: FxEventBox) -> bool {
    &&& other.beat == event_box.beat
    &&& other.group_id == event_box.group_id
    &&& other.groups@.len() == event_box.groups@.len()
    &&& forall|g: int|
        0 <= g < event_box.groups@.len() ==> same_group_keys(
            event_box.groups@[g],
            #[trigger] other.groups@[g],
        )
}

/// Whether the boxes of a map agree with others, box by box.
pub open spec fn same_keys(boxes: Seq<FxEventBox>, others: Seq<FxEventBox>) -> bool {
    &&& others.len() == boxes.len()
    &&& forall|b: int| 0 <= b < boxes.len() ==> same_box_keys(boxes[b], #[trigger] others[b])
}

/// In a table without a key twice, an entry has one index: two indices that name entries
/// with the key of the same data are one index.
pub proof fn lemma_one_index_per_key(
    table: Seq<FxEventData>,
    first: usize,
    second: usize,
    data: FxEventData,
)
    requires
        distinct_keys(table),
        names(table, first, data),
        names(table, second, data),
    ensures
        first == second,
{
    if first < second {
        assert(key_of(table[first as int]) != key_of(table[second as int]));
    } else if second < first {
        assert(key_of(table[second as int]) != key_of(table[first as int]));
    }
}

/// Two exact entries with one key are one entry.
pub proof fn lemma_exact_entries_with_one_key(first: FxEventData, second: FxEventData)
    requires
        exact(first),
        exact(second),
        key_of(first) == key_of(second),
    ensures
        first == second,
{
}

/// Indices that are all below the length of the table leave no index missing.
proof fn lemma_none_missing_in_ids(ids: Seq<usize>, len: nat)
    requires
        forall|k: int| 0 <= k < ids.len() ==> (#[trigger] ids[k]) < len,
    ensures
        first_missing_id(ids, len) is None,
    decreases ids.len(),
{
    if ids.len() > 0 {
        lemma_none_missing_in_ids(ids.drop_last(), len);
    }
}

/// Stored groups that stand for groups over a table leave no index missing.
proof fn lemma_none_missing_in_groups(
    groups: Seq<FxEventGroup>,
    raws: Seq<FxEventGroupRaw>,
    table: Seq<FxEventData>,
)
    requires
        raws.len() == groups.len(),
        forall|g: int| 0 <= g < groups.len() ==> group_stored(groups[g], #[trigger] raws[g], table),
    ensures
        first_missing_in_groups(raws, table.len()) is None,
    decreases raws.len(),
{
    if raws.len() > 0 {
        assert forall|g: int| 0 <= g < groups.drop_last().len() implies group_stored(
            groups.drop_last()[g],
            #[trigger] raws.drop_last()[g],
            table,
        ) by {
            assert(group_stored(groups[g], raws[g], table));
        }
        lemma_none_missing_in_groups(groups.drop_last(), raws.drop_last(), table);
        let last = raws.last();
        assert(group_stored(groups[groups.len() - 1], raws[raws.len() - 1], table));
        assert forall|k: int| 0 <= k < last.data_ids@.len() implies (#[trigger] last.data_ids@[k])
            < table.len() by {
            assert(names(table, last.data_ids@[k], groups.last().data@[k]));
        }
        lemma_none_missing_in_ids(last.data_ids@, table.len());
    }
}

/// Stored boxes that stand for boxes over a table leave no index missing.
proof fn lemma_none_missing_in_boxes(
    boxes: Seq<FxEventBox>,
    raws: Seq<FxEventBoxRaw>,
    table: Seq<FxEventData>,
)
    requires
        raws.len() == boxes.len(),
        forall|b: int| 0 <= b < boxes.len() ==> box_stored(boxes[b], #[trigger] raws[b], table),
    ensures
        first_missing_in_boxes(raws, table.len()) is None,
    decreases raws.len(),
{
    if raws.len() > 0 {
        assert forall|b: int| 0 <= b < boxes.drop_last().len() implies box_stored(
            boxes.drop_last()[b],
            #[trigger] raws.drop_last()[b],
            table,
        ) by {
            assert(box_stored(boxes[b], raws[b], table));
        }
        lemma_none_missing_in_boxes(boxes.drop_last(), raws.drop_last(), table);
        assert(box_stored(boxes[boxes.len() - 1], raws[raws.len() - 1], table));
        lemma_none_missing_in_groups(boxes.last().groups@, raws.last().groups@, table);
    }
}

/// What was stored can be read: in a store that stands for the boxes of a map, no index
/// is missing.
pub proof fn lemma_stored_is_readable(boxes: Seq<FxEventBox>, store: FxEventStore)
    requires
        stored(boxes, store),
    ensures
        first_missing_in_boxes(store.event_boxes@, store.event_data@.len()) is None,
{
    lemma_none_missing_in_boxes(boxes, store.event_boxes@, store.event_data@);
}

/// Storing the boxes of a map and reading them back gives boxes that agree with the
/// first in everything but the data, and entry by entry in the keys of the data. An
/// entry that is exact comes back as it was, if the entry that first had its key was
/// exact too.
pub proof fn lemma_store_round_trip(
    boxes: Seq<FxEventBox>,
    store: FxEventStore,
    back: Seq<FxEventBox>,
)
    requires
        stored(boxes, store),
        read(store, back),
    ensures
        same_keys(boxes, back),
{
    let table = store.event_data@;
    assert forall|b: int| 0 <= b < boxes.len() implies same_box_keys(
        boxes[b],
        #[trigger] back[b],
    ) by {
        let raw_box = store.event_boxes@[b];
        assert(box_stored(boxes[b], raw_box, table));
        assert(box_read(raw_box, back[b], table));
        assert forall|g: int| 0 <= g < boxes[b].groups@.len() implies same_group_keys(
            boxes[b].groups@[g],
            #[trigger] back[b].groups@[g],
        ) by {
            let group = boxes[b].groups@[g];
            let other = back[b].groups@[g];
            let raw = raw_box.groups@[g];
            assert(group_stored(group, raw, table));
            assert(group_read(raw, other, table));
            assert forall|k: int| 0 <= k < group.data@.len() implies same_entry_key(
                group.data@[k],
                #[trigger] other.data@[k],
            ) by {
                assert(names(table, raw.data_ids@[k], group.data@[k]));
                assert(other.data@[k] == table[raw.data_ids@[k] as int]);
                if exact(other.data@[k]) && exact(group.data@[k]) {
                    lemma_exact_entries_with_one_key(other.data@[k], group.data@[k]);
                }
            }
        }
    }
}

/// Whether every entry of a table is exact.
pub open spec fn exact_table(table: Seq<FxEventData>) -> bool {
    forall|i: int| 0 <= i < table.len() ==> exact(#[trigger] table[i])
}

/// Whether every entry of every group is exact.
pub open spec fn exact_groups(groups: Seq<FxEventGroup>) -> bool {
    forall|g: int| 0 <= g < groups.len() ==> exact_table((#[trigger] groups[g]).data@)
}

/// Whether every entry of every group of every box is exact.
pub open spec fn exact_boxes(boxes: Seq<FxEventBox>) -> bool {
    forall|b: int| 0 <= b < boxes.len() ==> exact_groups((#[trigger] boxes[b]).groups@)
}

/// Entering exact entries into a table of exact entries leaves every entry exact.
proof fn lemma_interned_run_is_exact(table: Seq<FxEventData>, run: Seq<FxEventData>)
    requires
        exact_table(table),
        exact_table(run),
    ensures
        exact_table(interned_run(table, run)),
    decreases run.len(),
{
    if run.len() > 0 {
        assert forall|i: int| 0 <= i < run.drop_last().len() implies exact(
            #[trigger] run.drop_last()[i],
        ) by {
            assert(exact(run[i]));
        }
        lemma_interned_run_is_exact(table, run.drop_last());
        assert(exact(run[run.len() - 1]));
    }
}

/// Entering groups of exact entries into a table of exact entries leaves every entry
/// exact.
proof fn lemma_interned_groups_are_exact(table: Seq<FxEventData>, groups: Seq<FxEventGroup>)
    requires
        exact_table(table),
        exact_groups(groups),
    ensures
        exact_table(interned_groups(table, groups)),
    decreases groups.len(),
{
    if groups.len() > 0 {
        assert forall|g: int| 0 <= g < groups.drop_last().len() implies exact_table(
            (#[trigger] groups.drop_last()[g]).data@,
        ) by {
            assert(exact_table(groups[g].data@));
        }
        lemma_interned_groups_are_exact(table, groups.drop_last());
        assert(exact_table(groups[groups.len() - 1].data@));
        lemma_interned_run_is_exact(
            interned_groups(table, groups.drop_last()),
            groups.last().data@,
        );
    }
}

/// Entering boxes of exact entries into a table of exact entries leaves every entry
/// exact.
proof fn lemma_interned_boxes_are_exact(table: Seq<FxEventData>, boxes: Seq<FxEventBox>)
    requires
        exact_table(table),
        exact_boxes(boxes),
    ensures
        exact_table(interned_boxes(table, boxes)),
    decreases boxes.len(),
{
    if boxes.len() > 0 {
        assert forall|b: int| 0 <= b < boxes.drop_last().len() implies exact_groups(
            (#[trigger] boxes.drop_last()[b]).groups@,
        ) by {
            assert(exact_groups(boxes[b].groups@));
        }
        lemma_interned_boxes_are_exact(table, boxes.drop_last());
        assert(exact_groups(boxes[boxes.len() - 1].groups@));
        lemma_interned_groups_are_exact(
            interned_boxes(table, boxes.drop_last()),
            boxes.last().groups@,
        );
    }
}

/// Boxes whose entries are all exact come back from a store as they were: every group
/// holds the same data, entry by entry.
pub proof fn lemma_exact_boxes_come_back(
    boxes: Seq<FxEventBox>,
    store: FxEventStore,
    back: Seq<FxEventBox>,
)
    requires
        stored(boxes, store),
        read(store, back),
        exact_boxes(boxes),
    ensures
        same_keys(boxes, back),
        forall|b: int, g: int|
            0 <= b < boxes.len() && 0 <= g < boxes[b].groups@.len() ==> (
            #[trigger] back[b].groups@[g]).data@ == boxes[b].groups@[g].data@,
{
    lemma_store_round_trip(boxes, store, back);
    lemma_interned_boxes_are_exact(Seq::empty(), boxes);
    let table = store.event_data@;
    assert forall|b: int, g: int|
        0 <= b < boxes.len() && 0 <= g < boxes[b].groups@.len() implies (
    #[trigger] back[b].groups@[g]).data@ == boxes[b].groups@[g].data@ by {
        let group = boxes[b].groups@[g];
        let other = back[b].groups@[g];
        let raw = store.event_boxes@[b].groups@[g];
        assert(same_box_keys(boxes[b], back[b]));
        assert(same_group_keys(group, other));
        assert(box_read(store.event_boxes@[b], back[b], table));
        assert(group_read(raw, other, table));
        assert(exact_groups(boxes[b].groups@));
        assert(exact_table(group.data@));
        assert forall|k: int| 0 <= k < group.data@.len() implies other.data@[k] == group.data@[k] by {
            assert(same_entry_key(group.data@[k], other.data@[k]));
            assert(other.data@[k] == table[raw.data_ids@[k] as int]);
            assert(exact(table[raw.data_ids@[k] as int]));
            assert(exact(group.data@[k]));
        }
        assert(other.data@ =~= group.data@);
    }
}

} // verus!
