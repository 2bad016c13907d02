//! The states of all patrolled devices, each under its identifier, and the
//! checks that keep one physical device from being patrolled twice.

use vstd::prelude::*;
use crate::device::{
    alert_due, error_recorded, newest_errors, read_recorded, DeviceInfo, DeviceInfoView, ErrorAlert,
    ALERT_RECENT_ERRORS, errors_view,
};

verus! {

/// A device state under its identifier.
#[derive(Debug, Clone)]
pub struct StateEntry {
    pub id: String,
    pub info: DeviceInfo,
}

/// The view of a [`StateEntry`].
pub struct StateEntryView {
    pub id: Seq<char>,
    pub info: DeviceInfoView,
}

impl View for StateEntry {
    type V = StateEntryView;

    open spec fn view(&self) -> StateEntryView {
        StateEntryView { id: self.id@, info: self.info@ }
    }
}

/// The views of a sequence of entries.
pub open spec fn entries_view(s: Seq<StateEntry>) -> Seq<StateEntryView> {
    s.map_values(|e: StateEntry| e@)
}

/// Whether no identifier occurs twice.
pub open spec fn distinct_ids(s: Seq<StateEntryView>) -> bool {
    forall|i: int, j: int| 0 <= i < j < s.len() ==> s[i].id != s[j].id
}

/// Whether some entry has the identifier `id`.
pub open spec fn has_id(s: Seq<StateEntryView>, id: Seq<char>) -> bool {
    exists|i: int| 0 <= i < s.len() && s[i].id == id
}

/// The states of the patrolled devices, in the order they were added.
pub struct DeviceStates {
    entries: Vec<StateEntry>,
}

impl View for DeviceStates {
    type V = Seq<StateEntryView>;

    closed spec fn view(&self) -> Seq<StateEntryView> {
        entries_view(self.entries@)
    }
}

/// `s` with the entry for `info` added at the end, unless its identifier is
/// already present.
pub open spec fn add_if_absent(s: Seq<StateEntryView>, info: DeviceInfoView) -> Seq<
    StateEntryView,
> {
    if has_id(s, info.uniq) {
        s
    } else {
        s.push(StateEntryView { id: info.uniq, info })
    }
}

/// `s` after adding, in order, each of `infos` whose identifier is not yet
/// present.
pub open spec fn synced(s: Seq<StateEntryView>, infos: Seq<DeviceInfoView>) -> Seq<
    StateEntryView,
>
    decreases infos.len(),
{
    if infos.len() == 0 {
        s
    } else {
        add_if_absent(synced(s, infos.drop_last()), infos.last())
    }
}

/// `s` without the entry for `id`.
pub open spec fn without_id(s: Seq<StateEntryView>, id: Seq<char>) -> Seq<StateEntryView> {
    s.filter(|e: StateEntryView| e.id != id)
}

impl DeviceStates {
    #[verifier::type_invariant]
    spec fn ids_unique(self) -> bool {
        distinct_ids(entries_view(self.entries@))
    }

    /// No device states.
    pub fn new() -> (r: DeviceStates)
        ensures
            r@ == Seq::<StateEntryView>::empty(),
    {
        let entries: Vec<StateEntry> = Vec::new();
        assert(entries_view(entries@) =~= Seq::<StateEntryView>::empty());
        DeviceStates { entries }
    }

    /// The number of devices.
    pub fn len(&self) -> (n: usize)
        ensures
            n == self@.len(),
    {
        self.entries.len()
    }

    /// The entry at `index`.
    pub fn entry(&self, index: usize) -> (e: &StateEntry)
        requires
            index < self@.len(),
        ensures
            e@ == self@[index as int],
    {
        &self.entries[index]
    }

    /// The position of the entry for `id`.
    pub fn position(&self, id: &str) -> (r: Option<usize>)
        ensures
            match r {
                Some(i) => i < self@.len() && self@[i as int].id == id@,
                None => !has_id(self@, id@),
            },
    {
        let wanted = id.to_owned();
        let mut i: usize = 0;
        while i < self.entries.len()
            invariant
                wanted@ == id@,
                i <= self.entries.len(),
                forall|k: int| 0 <= k < i ==> self@[k].id != id@,
            decreases self.entries.len() - i,
        {
            if self.entries[i].id == wanted {
                return Some(i);
            }
            i = i + 1;
        }
        None
    }

    /// Whether there is a state for `id`.
    pub fn contains(&self, id: &str) -> (b: bool)
        ensures
            b == has_id(self@, id@),
    {
        self.position(id).is_some()
    }

    /// Adds the state `info` under `id`; the identifier must be new.
    pub fn insert(&mut self, id: String, info: DeviceInfo)
        requires
            !has_id(old(self)@, id@),
        ensures
            final(self)@ == old(self)@.push(StateEntryView { id: id@, info: info@ }),
    {
        proof {
            use_type_invariant(&*self);
        }
        let e = StateEntry { id, info };
        let ghost before = self.entries@;
        let mut entries = Vec::new();
        std::mem::swap(&mut entries, &mut self.entries);
        entries.push(e);
        assert(entries_view(entries@) =~= entries_view(before).push(e@));
        self.entries = entries;
    }

    /// Removes the state for `id`, returning whether there was one.
    pub fn remove(&mut self, id: &str) -> (removed: bool)
        ensures
            removed == has_id(old(self)@, id@),
            removed ==> exists|i: int|
                0 <= i < old(self)@.len() && old(self)@[i].id == id@ && final(self)@ == old(
                    self,
                )@.remove(i),
            !removed ==> final(self)@ == old(self)@,
            !has_id(final(self)@, id@),
    {
        proof {
            use_type_invariant(&*self);
        }
        match self.position(id) {
            None => false,
            Some(i) => {
                let ghost before = self.entries@;
                let mut entries = Vec::new();
                std::mem::swap(&mut entries, &mut self.entries);
                entries.remove(i);
                assert(entries_view(entries@) =~= entries_view(before).remove(i as int));
                proof {
                    let v = entries_view(before);
                    assert forall|k: int| 0 <= k < v.remove(i as int).len() implies v.remove(
                        i as int,
                    )[k].id != id@ by {
                        if k < i {
                            assert(v.remove(i as int)[k] == v[k]);
                        } else {
                            assert(v.remove(i as int)[k] == v[k + 1]);
                        }
                    }
                }
                self.entries = entries;
                true
            },
        }
    }

    /// Removes every state.
    pub fn clear(&mut self)
        ensures
            final(self)@ == Seq::<StateEntryView>::empty(),
    {
        self.entries = Vec::new();
        assert(entries_view(self.entries@) =~= Seq::<StateEntryView>::empty());
    }
}


impl DeviceStates {
    /// Adds, in order, each of `infos` whose identifier is not yet present;
    /// returns for each whether it was added.
    pub fn sync_devices(&mut self, infos: &Vec<DeviceInfo>) -> (added: Vec<bool>)
        ensures
            final(self)@ == synced(old(self)@, infos@.map_values(|d: DeviceInfo| d@)),
            added@.len() == infos@.len(),
            forall|k: int|
                0 <= k < infos@.len() ==> added@[k] == !has_id(
                    synced(old(self)@, infos@.map_values(|d: DeviceInfo| d@).take(k)),
                    infos@[k]@.uniq,
                ),
    {
        let ghost views = infos@.map_values(|d: DeviceInfo| d@);
        let mut added: Vec<bool> = Vec::new();
        let mut k: usize = 0;
        assert(views.take(0) =~= Seq::<DeviceInfoView>::empty());
        while k < infos.len()
            invariant
                k <= infos.len(),
                views == infos@.map_values(|d: DeviceInfo| d@),
                self@ == synced(old(self)@, views.take(k as int)),
                added@.len() == k,
                forall|m: int|
                    0 <= m < k ==> added@[m] == !has_id(
                        synced(old(self)@, views.take(m)),
                        infos@[m]@.uniq,
                    ),
            decreases infos.len() - k,
        {
            let info = &infos[k];
            assert(views.take(k + 1).drop_last() =~= views.take(k as int));
            assert(views.take(k + 1).last() == info@);
            if self.contains(info.uniq.as_str()) {
                added.push(false);
            } else {
                let copy = info.copy();
                self.insert(info.uniq.clone(), copy);
                added.push(true);
            }
            k = k + 1;
        }
        assert(views.take(infos.len() as int) =~= views);
        added
    }

    /// Records a successful read on the device `id` ending at
    /// `new_position`; see [`DeviceInfo::record_read`]. Returns whether the
    /// patrol cycle was completed.
    pub fn record_read(&mut self, id: &str, new_position: u64, device_size: u64, now: u64) -> (done: bool)
        requires
            has_id(old(self)@, id@),
        ensures
            done == (new_position >= device_size),
            exists|i: int|
                0 <= i < old(self)@.len() && old(self)@[i].id == id@ && final(self)@ == old(
                    self,
                )@.update(
                    i,
                    StateEntryView {
                        id: id@,
                        info: read_recorded(old(self)@[i].info, new_position, device_size, now),
                    },
                ),
    {
        proof {
            use_type_invariant(&*self);
        }
        let i = self.position(id).unwrap();
        let ghost before = self.entries@;
        let mut entries = Vec::new();
        std::mem::swap(&mut entries, &mut self.entries);
        let mut e = entries.remove(i);
        let done = e.info.record_read(new_position, device_size, now);
        entries.insert(i, e);
        assert(entries_view(entries@) =~= entries_view(before).update(i as int, e@));
        self.entries = entries;
        done
    }

    /// Records a failed read on the device `id` (where it has a state); see
    /// [`DeviceInfo::record_read_error`]. Returns whether it has one.
    pub fn record_read_error(
        &mut self,
        id: &str,
        now: u64,
        read_position: u64,
        message: String,
        read_size: u64,
    ) -> (found: bool)
        requires
            forall|i: int|
                0 <= i < old(self)@.len() && old(self)@[i].id == id@ ==> old(
                    self,
                )@[i].info.last_position + read_size <= u64::MAX,
        ensures
            found == has_id(old(self)@, id@),
            !found ==> final(self)@ == old(self)@,
            found ==> exists|i: int|
                0 <= i < old(self)@.len() && old(self)@[i].id == id@ && final(self)@ == old(
                    self,
                )@.update(
                    i,
                    StateEntryView {
                        id: id@,
                        info: error_recorded(
                            old(self)@[i].info,
                            now,
                            read_position,
                            message@,
                            read_size,
                        ),
                    },
                ),
    {
        proof {
            use_type_invariant(&*self);
        }
        match self.position(id) {
            None => false,
            Some(i) => {
                let ghost before = self.entries@;
                let mut entries = Vec::new();
                std::mem::swap(&mut entries, &mut self.entries);
                let mut e = entries.remove(i);
                e.info.record_read_error(now, read_position, message, read_size);
                entries.insert(i, e);
                assert(entries_view(entries@) =~= entries_view(before).update(i as int, e@));
                self.entries = entries;
                true
            },
        }
    }

    /// Takes the alert of the device at `index`; see
    /// [`DeviceInfo::take_alert`].
    pub fn take_alert(&mut self, index: usize, threshold: usize) -> (r: Option<ErrorAlert>)
        requires
            index < old(self)@.len(),
            old(self)@[index as int].info.reported_errors <= old(self)@[index as int].info.errors.len(),
        ensures
            ({
                let info = old(self)@[index as int].info;
                let due = alert_due(info, threshold);
                &&& due ==> (r matches Some(a) && a.total_errors == info.errors.len()
                    && errors_view(a.recent@) == newest_errors(info.errors, ALERT_RECENT_ERRORS as nat)
                    && final(self)@ == old(self)@.update(
                    index as int,
                    StateEntryView {
                        id: old(self)@[index as int].id,
                        info: DeviceInfoView { reported_errors: info.errors.len() as usize, ..info },
                    },
                ))
                &&& !due ==> r is None && final(self)@ == old(self)@
            }),
    {
        proof {
            use_type_invariant(&*self);
        }
        let ghost before = self.entries@;
        let mut entries = Vec::new();
        std::mem::swap(&mut entries, &mut self.entries);
        let mut e = entries.remove(index);
        let r = e.info.take_alert(threshold);
        entries.insert(index, e);
        assert(entries_view(entries@) =~= entries_view(before).update(index as int, e@));
        self.entries = entries;
        r
    }
}

// ---------------------------------------------------------------------------
// Devices that are the same device
// ---------------------------------------------------------------------------

/// The identity attributes of a device, in the order they are checked: path,
/// serial number, WWID, EUI, identifier.
pub open spec fn identity(info: DeviceInfoView, kind: int) -> Seq<char> {
    if kind == 0 {
        info.path
    } else if kind == 1 {
        info.serial
    } else if kind == 2 {
        info.wwid
    } else if kind == 3 {
        info.eui
    } else {
        info.uniq
    }
}

/// Whether an attribute takes part in the check: the path always, the others
/// where they are not empty.
pub open spec fn identity_checked(info: DeviceInfoView, kind: int) -> bool {
    kind == 0 || identity(info, kind).len() > 0
}

/// The first of the entries `0..n` whose attribute `kind` is `value`.
pub open spec fn first_holder(s: Seq<StateEntryView>, kind: int, value: Seq<char>, n: int) -> Option<
    int,
>
    decreases n,
{
    if n <= 0 {
        None
    } else {
        match first_holder(s, kind, value, n - 1) {
            Some(j) => Some(j),
            None => if identity(s[n - 1].info, kind) == value {
                Some(n - 1)
            } else {
                None
            },
        }
    }
}

/// Two devices that share an identity attribute.
#[derive(Debug, Clone)]
pub enum DeviceValidationError {
    DuplicatePath { path: String, existing_device: String },
    DuplicateSerial { serial: String, existing_device: String },
    DuplicateWwid { wwid: String, existing_device: String },
    DuplicateEui { eui: String, existing_device: String },
    DuplicateUniq { uniq: String, existing_device: String },
    /// Some devices share identity attributes.
    Duplicates {},
}

/// A shared attribute: its kind (as in [`identity`]), its value and the
/// identifier of the device that had it first.
pub struct DuplicateView {
    pub kind: int,
    pub value: Seq<char>,
    pub existing_device: Seq<char>,
}

impl DeviceValidationError {
    /// The shared attribute this error reports (none for `Duplicates`).
    pub open spec fn duplicate(self) -> Option<DuplicateView> {
        match self {
            DeviceValidationError::DuplicatePath { path, existing_device } => Some(
                DuplicateView { kind: 0, value: path@, existing_device: existing_device@ },
            ),
            DeviceValidationError::DuplicateSerial { serial, existing_device } => Some(
                DuplicateView { kind: 1, value: serial@, existing_device: existing_device@ },
            ),
            DeviceValidationError::DuplicateWwid { wwid, existing_device } => Some(
                DuplicateView { kind: 2, value: wwid@, existing_device: existing_device@ },
            ),
            DeviceValidationError::DuplicateEui { eui, existing_device } => Some(
                DuplicateView { kind: 3, value: eui@, existing_device: existing_device@ },
            ),
            DeviceValidationError::DuplicateUniq { uniq, existing_device } => Some(
                DuplicateView { kind: 4, value: uniq@, existing_device: existing_device@ },
            ),
            DeviceValidationError::Duplicates {  } => None,
        }
    }
}

/// What the check reports of attribute `kind` of entry `i`: the entry shares
/// it with the first earlier entry that has it.
pub open spec fn duplicate_of(s: Seq<StateEntryView>, i: int, kind: int) -> Seq<DuplicateView> {
    let value = identity(s[i].info, kind);
    if identity_checked(s[i].info, kind) {
        match first_holder(s, kind, value, i) {
            Some(j) => seq![DuplicateView { kind, value, existing_device: s[j].id }],
            None => Seq::empty(),
        }
    } else {
        Seq::empty()
    }
}

/// What the check reports of the attributes `0..k` of entry `i`.
pub open spec fn duplicates_of_entry(s: Seq<StateEntryView>, i: int, k: int) -> Seq<DuplicateView>
    decreases k,
{
    if k <= 0 {
        Seq::empty()
    } else {
        duplicates_of_entry(s, i, k - 1) + duplicate_of(s, i, k - 1)
    }
}

/// What the check reports of the entries `0..n`, entry by entry.
pub open spec fn duplicates_upto(s: Seq<StateEntryView>, n: int) -> Seq<DuplicateView>
    decreases n,
{
    if n <= 0 {
        Seq::empty()
    } else {
        duplicates_upto(s, n - 1) + duplicates_of_entry(s, n - 1, 5)
    }
}

/// Whether no two devices share a checked identity attribute.
pub open spec fn identities_distinct(s: Seq<StateEntryView>) -> bool {
    forall|i: int, j: int, kind: int|
        0 <= i < j < s.len() && 0 <= kind < 5 && identity_checked(s[j].info, kind) ==> identity(
            s[i].info,
            kind,
        ) != identity(s[j].info, kind)
}

fn identity_of(info: &DeviceInfo, kind: usize) -> (r: &String)
    requires
        kind < 5,
    ensures
        r@ == identity(info@, kind as int),
{
    if kind == 0 {
        &info.path
    } else if kind == 1 {
        &info.serial
    } else if kind == 2 {
        &info.wwid
    } else if kind == 3 {
        &info.eui
    } else {
        &info.uniq
    }
}

fn duplicate_error(kind: usize, value: String, existing_device: String) -> (e: DeviceValidationError)
    requires
        kind < 5,
    ensures
        e.duplicate() == Some(
            DuplicateView { kind: kind as int, value: value@, existing_device: existing_device@ },
        ),
{
    if kind == 0 {
        DeviceValidationError::DuplicatePath { path: value, existing_device }
    } else if kind == 1 {
        DeviceValidationError::DuplicateSerial { serial: value, existing_device }
    } else if kind == 2 {
        DeviceValidationError::DuplicateWwid { wwid: value, existing_device }
    } else if kind == 3 {
        DeviceValidationError::DuplicateEui { eui: value, existing_device }
    } else {
        DeviceValidationError::DuplicateUniq { uniq: value, existing_device }
    }
}

/// The views of a report.
pub open spec fn report_view(r: Seq<DeviceValidationError>) -> Seq<Option<DuplicateView>> {
    r.map_values(|e: DeviceValidationError| e.duplicate())
}

/// The views of the duplicates of a report.
pub open spec fn some_all(d: Seq<DuplicateView>) -> Seq<Option<DuplicateView>> {
    d.map_values(|x: DuplicateView| Some(x))
}

impl DeviceStates {
    fn first_holder_of(&self, kind: usize, value: &String, n: usize) -> (r: Option<usize>)
        requires
            kind < 5,
            n <= self@.len(),
        ensures
            match first_holder(self@, kind as int, value@, n as int) {
                Some(j) => 0 <= j < n && r == Some(j as usize),
                None => r is None,
            },
    {
        let mut j: usize = 0;
        while j < n
            invariant
                j <= n <= self@.len(),
                kind < 5,
                first_holder(self@, kind as int, value@, j as int) is None,
            decreases n - j,
        {
            if *identity_of(&self.entries[j].info, kind) == *value {
                assert(first_holder(self@, kind as int, value@, j + 1) == Some(j as int));
                proof {
                    lemma_first_holder_stable(self@, kind as int, value@, j + 1, n as int);
                }
                return Some(j);
            }
            j = j + 1;
        }
        None
    }

    /// The shared identity attributes of the devices: entry by entry, each
    /// checked attribute that an earlier entry has, with the identifier of
    /// the first entry that has it.
    pub fn duplicate_report(&self) -> (r: Vec<DeviceValidationError>)
        ensures
            report_view(r@) == some_all(duplicates_upto(self@, self@.len() as int)),
    {
        let mut r: Vec<DeviceValidationError> = Vec::new();
        let mut i: usize = 0;
        while i < self.entries.len()
            invariant
                i <= self@.len(),
                report_view(r@) == some_all(duplicates_upto(self@, i as int)),
            decreases self@.len() - i,
        {
            let mut kind: usize = 0;
            while kind < 5
                invariant
                    i < self@.len(),
                    kind <= 5,
                    report_view(r@) == some_all(
                        duplicates_upto(self@, i as int) + duplicates_of_entry(self@, i as int, kind as int),
                    ),
                decreases 5 - kind,
            {
                let value = identity_of(&self.entries[i].info, kind);
                let ghost before = r@;
                let ghost prefix = duplicates_upto(self@, i as int) + duplicates_of_entry(
                    self@,
                    i as int,
                    kind as int,
                );
                let ghost item = duplicate_of(self@, i as int, kind as int);
                assert(duplicates_upto(self@, i as int) + duplicates_of_entry(self@, i as int, kind + 1)
                    =~= prefix + item);
                if kind == 0 || !value.as_str().is_empty() {
                    match self.first_holder_of(kind, value, i) {
                        Some(j) => {
                            let e = duplicate_error(kind, value.clone(), self.entries[j].id.clone());
                            r.push(e);
                            assert(item =~= seq![DuplicateView { kind: kind as int, value: value@, existing_device: self@[j as int].id }]);
                            assert(report_view(r@) =~= report_view(before).push(e.duplicate()));
                            assert(some_all(prefix + item) =~= some_all(prefix).push(e.duplicate()));
                        },
                        None => {
                            assert(item =~= Seq::<DuplicateView>::empty());
                            assert(prefix + item =~= prefix);
                        },
                    }
                } else {
                    assert(item =~= Seq::<DuplicateView>::empty());
                    assert(prefix + item =~= prefix);
                }
                kind = kind + 1;
            }
            assert(duplicates_upto(self@, i + 1) =~= duplicates_upto(self@, i as int)
                + duplicates_of_entry(self@, i as int, 5));
            i = i + 1;
        }
        r
    }

    /// Whether no two devices share an identity attribute; the error where
    /// some do.
    pub fn verify_unique(&self) -> (r: Result<(), DeviceValidationError>)
        ensures
            r is Ok <==> duplicates_upto(self@, self@.len() as int).len() == 0,
            r is Ok <==> identities_distinct(self@),
            r matches Err(e) ==> e.duplicate() is None,
    {
        let report = self.duplicate_report();
        proof {
            lemma_report_empty(self@, self@.len() as int);
            assert(report_view(report@).len() == report@.len());
        }
        if report.len() == 0 {
            Ok(())
        } else {
            Err(DeviceValidationError::Duplicates {  })
        }
    }
}

proof fn lemma_first_holder_stable(s: Seq<StateEntryView>, kind: int, value: Seq<char>, m: int, n: int)
    requires
        0 <= m <= n,
        first_holder(s, kind, value, m) is Some,
    ensures
        first_holder(s, kind, value, n) == first_holder(s, kind, value, m),
    decreases n - m,
{
    if n > m {
        lemma_first_holder_stable(s, kind, value, m, n - 1);
    }
}

proof fn lemma_first_holder_none(s: Seq<StateEntryView>, kind: int, value: Seq<char>, n: int)
    requires
        0 <= n <= s.len(),
    ensures
        first_holder(s, kind, value, n) is None <==> forall|j: int|
            0 <= j < n ==> identity(#[trigger] s[j].info, kind) != value,
    decreases n,
{
    if n > 0 {
        lemma_first_holder_none(s, kind, value, n - 1);
        if first_holder(s, kind, value, n - 1) is Some {
            let j = first_holder(s, kind, value, n - 1)->0;
            lemma_first_holder_found(s, kind, value, n - 1);
        }
    }
}

proof fn lemma_first_holder_found(s: Seq<StateEntryView>, kind: int, value: Seq<char>, n: int)
    requires
        0 <= n <= s.len(),
        first_holder(s, kind, value, n) is Some,
    ensures
        ({
            let j = first_holder(s, kind, value, n)->0;
            0 <= j < n && identity(s[j].info, kind) == value
        }),
    decreases n,
{
    if n > 0 && first_holder(s, kind, value, n - 1) is Some {
        lemma_first_holder_found(s, kind, value, n - 1);
    }
}

proof fn lemma_entry_empty(s: Seq<StateEntryView>, i: int, k: int)
    requires
        0 <= i < s.len(),
        0 <= k <= 5,
    ensures
        duplicates_of_entry(s, i, k).len() == 0 <==> forall|kind: int|
            0 <= kind < k && identity_checked(s[i].info, kind) ==> #[trigger] first_holder(
                s,
                kind,
                identity(s[i].info, kind),
                i,
            ) is None,
    decreases k,
{
    if k > 0 {
        lemma_entry_empty(s, i, k - 1);
    }
}

pub(crate) proof fn lemma_report_empty(s: Seq<StateEntryView>, n: int)
    requires
        0 <= n <= s.len(),
    ensures
        duplicates_upto(s, n).len() == 0 <==> forall|i: int, j: int, kind: int|
            0 <= i < j < n && 0 <= kind < 5 && identity_checked(s[j].info, kind) ==> identity(
                s[i].info,
                kind,
            ) != identity(s[j].info, kind),
    decreases n,
{
    if n > 0 {
        lemma_report_empty(s, n - 1);
        lemma_entry_empty(s, n - 1, 5);
        assert forall|kind: int|
            #![trigger identity(s[n - 1].info, kind)]
            0 <= kind < 5 implies (first_holder(s, kind, identity(s[n - 1].info, kind), n - 1) is None
            <==> forall|j: int| 0 <= j < n - 1 ==> identity(#[trigger] s[j].info, kind) != identity(
            s[n - 1].info,
            kind,
        )) by {
            lemma_first_holder_none(s, kind, identity(s[n - 1].info, kind), n - 1);
        }
    }
}

} // verus!
