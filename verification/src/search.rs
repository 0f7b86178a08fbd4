//! The search for the device behind which the driver sits.
use crate::error::AcpiParseError;
use crate::text::{
    contains, found_part_stands, has_part, part_is_found, push_str, utf16, utf16_lossy,
    utf16_round_trip, utf16_text,
};
use vstd::prelude::*;
use vstd::slice::slice_subrange;

verus! {

/// The error code for a search that found no device.
pub const NOT_FOUND_CODE: i32 = -1;

/// The number of 16-bit units that a property of a device is given.
pub const PROPERTY_LENGTH: usize = 128;

/// A property of a device: the units that the system wrote, and the number of bytes that it
/// needed for them, the terminating null unit among them.
#[derive(Debug)]
pub struct DeviceProperty {
    pub units: Vec<u16>,
    pub required_size: u32,
}

/// The number of units in front of the terminating one.
pub open spec fn text_units(required_size: u32) -> int {
    if required_size >= 2 {
        required_size as int / 2 - 1
    } else {
        0
    }
}

/// The text of a property that needs so many bytes; `None` where it needs none.
pub open spec fn units_text(units: Seq<u16>, required_size: u32) -> Option<Seq<char>> {
    if required_size == 0 {
        None
    } else {
        Some(utf16_text(units.take(text_units(required_size))))
    }
}

impl DeviceProperty {
    /// The system wrote all units in front of the terminating one.
    pub open spec fn valid(self) -> bool {
        text_units(self.required_size) <= self.units@.len()
    }

    /// The text of the property; `None` where it has none.
    pub fn text(&self) -> (r: Option<String>)
        requires
            self.valid(),
        ensures
            match units_text(self.units@, self.required_size) {
                Some(text) => r matches Some(s) && s@ == text,
                None => r is None,
            },
    {
        if self.required_size == 0 {
            return None;
        }
        let length: usize = if self.required_size >= 2 {
            (self.required_size / 2 - 1) as usize
        } else {
            0
        };
        let units: &[u16] = slice_subrange(self.units.as_slice(), 0, length);
        let text: String = utf16_lossy(units);
        assert(units@ =~= self.units@.take(text_units(self.required_size)));
        assert(text@ == utf16_text(units@));
        Some(text)
    }
}

/// Where the search stands: what the system is to be asked next, or how it ended.
#[derive(Debug)]
pub enum SearchState {
    /// List the devices of the class
    List,
    /// Step to the device at this index of the list
    Enumerate { index: u32 },
    /// Read the instance identifier of the device at this index
    ReadInstanceId { index: u32 },
    /// Read the object name of the device at this index
    ReadObjectName { index: u32 },
    /// The device has this path
    Found(String),
    /// The search failed
    Failed(AcpiParseError),
}

/// What a [`SearchState`] holds.
#[verifier::ext_equal]
pub enum SearchView {
    List,
    Enumerate { index: u32 },
    ReadInstanceId { index: u32 },
    ReadObjectName { index: u32 },
    Found(Seq<char>),
    Failed(AcpiParseError),
}

impl View for SearchState {
    type V = SearchView;

    open spec fn view(&self) -> SearchView {
        match self {
            SearchState::List => SearchView::List,
            SearchState::Enumerate { index } => SearchView::Enumerate { index: *index },
            SearchState::ReadInstanceId { index } => SearchView::ReadInstanceId { index: *index },
            SearchState::ReadObjectName { index } => SearchView::ReadObjectName { index: *index },
            SearchState::Found(path) => SearchView::Found(path@),
            SearchState::Failed(e) => SearchView::Failed(*e),
        }
    }
}

/// What the system answered.
#[derive(Debug)]
pub enum SearchEvent {
    /// The devices are listed
    Listed,
    /// The devices could not be listed, for the reason with this code
    ListFailed(i32),
    /// There is a device at the index
    Present,
    /// There is no device at the index
    Absent,
    /// The property was read
    Property(DeviceProperty),
    /// The property could not be read
    NoProperty,
}

impl SearchEvent {
    /// The text of the property that was read.
    pub open spec fn text(self) -> Option<Seq<char>> {
        match self {
            SearchEvent::Property(p) => units_text(p.units@, p.required_size),
            _ => None,
        }
    }

    /// Whether this answers for a property.
    pub open spec fn about_property(self) -> bool {
        match self {
            SearchEvent::Property(p) => p.valid(),
            SearchEvent::NoProperty => true,
            _ => false,
        }
    }

    /// Whether this answers what the state asks.
    pub open spec fn answers(self, state: SearchView) -> bool {
        match state {
            SearchView::List => self is Listed || self is ListFailed,
            SearchView::Enumerate { .. } => self is Present || self is Absent,
            SearchView::ReadInstanceId { index } | SearchView::ReadObjectName { index } => {
                self.about_property() && index < u32::MAX
            },
            _ => false,
        }
    }
}

/// Whether a device is the one searched for, by its instance identifier.
pub open spec fn is_test_device(instance_id: Option<Seq<char>>) -> bool {
    instance_id matches Some(id) && has_part(id, "ETST0001"@)
}

/// The path of the device with this object name.
pub open spec fn path_of(object_name: Seq<char>) -> Seq<char> {
    "\\\\.\\GLOBALROOT"@ + object_name
}

/// Where the search stands after the instance identifier of a device was asked for.
pub open spec fn after_instance_id(index: u32, instance_id: Option<Seq<char>>) -> SearchView {
    if is_test_device(instance_id) {
        SearchView::ReadObjectName { index }
    } else {
        SearchView::Enumerate { index: (index + 1) as u32 }
    }
}

/// Where the search stands after the object name of a device was asked for.
pub open spec fn after_object_name(index: u32, object_name: Option<Seq<char>>) -> SearchView {
    match object_name {
        Some(name) => SearchView::Found(path_of(name)),
        None => SearchView::Enumerate { index: (index + 1) as u32 },
    }
}

/// Where the search stands after an answer.
pub open spec fn next_state(state: SearchView, event: SearchEvent) -> SearchView {
    match state {
        SearchView::List => match event {
            SearchEvent::ListFailed(code) => SearchView::Failed(
                AcpiParseError::EvaluationFailed(code),
            ),
            _ => SearchView::Enumerate { index: 0 },
        },
        SearchView::Enumerate { index } => match event {
            SearchEvent::Present => SearchView::ReadInstanceId { index },
            _ => SearchView::Failed(AcpiParseError::EvaluationFailed(NOT_FOUND_CODE)),
        },
        SearchView::ReadInstanceId { index } => after_instance_id(index, event.text()),
        SearchView::ReadObjectName { index } => after_object_name(index, event.text()),
        SearchView::Found(_) | SearchView::Failed(_) => state,
    }
}

impl SearchState {
    /// Takes the answer of the system.
    pub fn step(self, event: SearchEvent) -> (next: SearchState)
        requires
            event.answers(self@),
        ensures
            next@ == next_state(self@, event),
    {
        match self {
            SearchState::List => match event {
                SearchEvent::ListFailed(code) => SearchState::Failed(
                    AcpiParseError::EvaluationFailed(code),
                ),
                _ => SearchState::Enumerate { index: 0 },
            },
            SearchState::Enumerate { index } => match event {
                SearchEvent::Present => SearchState::ReadInstanceId { index },
                _ => SearchState::Failed(AcpiParseError::EvaluationFailed(NOT_FOUND_CODE)),
            },
            SearchState::ReadInstanceId { index } => {
                if let SearchEvent::Property(property) = event {
                    if let Some(instance_id) = property.text() {
                        if contains(instance_id.as_str(), "ETST0001") {
                            return SearchState::ReadObjectName { index };
                        }
                    }
                }
                SearchState::Enumerate { index: index + 1 }
            },
            SearchState::ReadObjectName { index } => {
                if let SearchEvent::Property(property) = event {
                    if let Some(object_name) = property.text() {
                        let mut path: String = String::new();
                        push_str(&mut path, "\\\\.\\GLOBALROOT");
                        push_str(&mut path, object_name.as_str());
                        assert(path@ =~= path_of(object_name@));
                        return SearchState::Found(path);
                    }
                }
                SearchState::Enumerate { index: index + 1 }
            },
            SearchState::Found(path) => SearchState::Found(path),
            SearchState::Failed(e) => SearchState::Failed(e),
        }
    }

    /// How the search ended; `None` while it goes on.
    pub fn result(self) -> (r: Option<Result<String, AcpiParseError>>)
        ensures
            match self {
                SearchState::Found(path) => r == Some(Ok::<String, AcpiParseError>(path)),
                SearchState::Failed(e) => r == Some(Err::<String, AcpiParseError>(e)),
                _ => r is None,
            },
    {
        match self {
            SearchState::Found(path) => Some(Ok(path)),
            SearchState::Failed(e) => Some(Err(e)),
            _ => None,
        }
    }
}

/// A device of the list: what the system answers when it is asked for each of its two properties.
pub struct ListedDevice {
    pub instance_id: SearchEvent,
    pub object_name: SearchEvent,
}

impl ListedDevice {
    /// Each property is either read, as a valid one, or cannot be read.
    pub open spec fn valid(self) -> bool {
        self.instance_id.about_property() && self.object_name.about_property()
    }

    /// Whether the search ends at the device.
    pub open spec fn matches_search(self) -> bool {
        is_test_device(self.instance_id.text()) && self.object_name.text() is Some
    }
}

/// Whether each device of the list answers for its two properties.
pub open spec fn all_answer(devices: Seq<ListedDevice>) -> bool {
    forall|i: int| 0 <= i < devices.len() ==> (#[trigger] devices[i]).valid()
}

/// What a system with these devices answers in a state of the search.
pub open spec fn answer_of(devices: Seq<ListedDevice>, state: SearchView) -> SearchEvent {
    match state {
        SearchView::List => SearchEvent::Listed,
        SearchView::Enumerate { index } => if index < devices.len() {
            SearchEvent::Present
        } else {
            SearchEvent::Absent
        },
        SearchView::ReadInstanceId { index } => devices[index as int].instance_id,
        SearchView::ReadObjectName { index } => devices[index as int].object_name,
        SearchView::Found(_) | SearchView::Failed(_) => SearchEvent::Absent,
    }
}

/// Where a search through these devices stands after it took so many answers. A search that has
/// ended stays as it is.
pub open spec fn search_after(devices: Seq<ListedDevice>, answers: nat) -> SearchView
    decreases answers,
{
    if answers == 0 {
        SearchView::List
    } else {
        let state = search_after(devices, (answers - 1) as nat);
        next_state(state, answer_of(devices, state))
    }
}

/// How a search through these devices ends: at the first one that matches, with the path of its
/// object, or without a device.
pub open spec fn search(devices: Seq<ListedDevice>) -> SearchView
    decreases devices.len(),
{
    if devices.len() == 0 {
        SearchView::Failed(AcpiParseError::EvaluationFailed(NOT_FOUND_CODE))
    } else if devices[0].matches_search() {
        SearchView::Found(path_of(devices[0].object_name.text()->0))
    } else {
        search(devices.drop_first())
    }
}

/// The search comes to the device at `n` where no device in front of it matches.
proof fn lemma_comes_to(devices: Seq<ListedDevice>, n: int) -> (answers: nat)
    requires
        0 <= n <= devices.len() <= u32::MAX,
        forall|i: int| 0 <= i < n ==> !(#[trigger] devices[i]).matches_search(),
    ensures
        answers <= 1 + 3 * n,
        search_after(devices, answers) == (SearchView::Enumerate { index: n as u32 }),
    decreases n,
{
    if n == 0 {
        assert(search_after(devices, 0) == SearchView::List);
        1
    } else {
        let before = lemma_comes_to(devices, n - 1);
        assert(!devices[n - 1].matches_search());
        let asked = search_after(devices, before + 1);
        assert(asked == (SearchView::ReadInstanceId { index: (n - 1) as u32 }));
        let identified = search_after(devices, before + 2);
        assert(identified == next_state(asked, devices[n - 1].instance_id));
        if is_test_device(devices[n - 1].instance_id.text()) {
            assert(identified == (SearchView::ReadObjectName { index: (n - 1) as u32 }));
            assert(search_after(devices, before + 3) == next_state(
                identified,
                devices[n - 1].object_name,
            ));
            before + 3
        } else {
            before + 2
        }
    }
}

/// A search that has ended stays as it is.
proof fn lemma_stays(devices: Seq<ListedDevice>, ended: nat, answers: nat)
    requires
        ended <= answers,
        search_after(devices, ended) is Found || search_after(devices, ended) is Failed,
    ensures
        search_after(devices, answers) == search_after(devices, ended),
    decreases answers,
{
    if ended < answers {
        lemma_stays(devices, ended, (answers - 1) as nat);
    }
}

/// The search ends at the first device that matches, with the path of its object. It takes the
/// answer to its listing, and no more than three for each device up to that one.
pub proof fn search_finds_the_first(devices: Seq<ListedDevice>, first: int, answers: nat)
    requires
        0 <= first < devices.len() <= u32::MAX,
        devices[first].matches_search(),
        forall|i: int| 0 <= i < first ==> !(#[trigger] devices[i]).matches_search(),
        answers >= 1 + 3 * (first + 1),
    ensures
        search_after(devices, answers) == SearchView::Found(
            path_of(devices[first].object_name.text()->0),
        ),
{
    let before = lemma_comes_to(devices, first);
    let asked = search_after(devices, before + 1);
    assert(asked == (SearchView::ReadInstanceId { index: first as u32 }));
    let identified = search_after(devices, before + 2);
    assert(identified == (SearchView::ReadObjectName { index: first as u32 }));
    assert(search_after(devices, before + 3) == next_state(identified, devices[first].object_name));
    lemma_stays(devices, before + 3, answers);
}

/// A search through devices of which none matches fails. It takes the answer to its listing, no
/// more than three for each device, and the one that there is no further device.
pub proof fn search_without_a_match_fails(devices: Seq<ListedDevice>, answers: nat)
    requires
        devices.len() <= u32::MAX,
        forall|i: int| 0 <= i < devices.len() ==> !(#[trigger] devices[i]).matches_search(),
        answers >= 2 + 3 * devices.len(),
    ensures
        search_after(devices, answers) == SearchView::Failed(
            AcpiParseError::EvaluationFailed(NOT_FOUND_CODE),
        ),
{
    let before = lemma_comes_to(devices, devices.len() as int);
    assert(search_after(devices, before + 1) is Failed);
    lemma_stays(devices, before + 1, answers);
}

proof fn lemma_search(devices: Seq<ListedDevice>)
    ensures
        match search(devices) {
            SearchView::Found(path) => exists|first: int|
                0 <= first < devices.len() && (#[trigger] devices[first]).matches_search() && path
                    == path_of(devices[first].object_name.text()->0) && forall|i: int|
                    0 <= i < first ==> !(#[trigger] devices[i]).matches_search(),
            SearchView::Failed(e) => e == AcpiParseError::EvaluationFailed(NOT_FOUND_CODE) && forall|
                i: int,
            |
                0 <= i < devices.len() ==> !(#[trigger] devices[i]).matches_search(),
            _ => false,
        },
    decreases devices.len(),
{
    if devices.len() > 0 {
        let rest = devices.drop_first();
        assert forall|i: int| 0 < i < devices.len() implies #[trigger] devices[i] == rest[i - 1] by {}
        if !devices[0].matches_search() {
            lemma_search(rest);
            if let SearchView::Found(path) = search(rest) {
                let first = choose|first: int|
                    0 <= first < rest.len() && (#[trigger] rest[first]).matches_search() && path
                        == path_of(rest[first].object_name.text()->0) && forall|i: int|
                        0 <= i < first ==> !(#[trigger] rest[i]).matches_search();
                assert(devices[first + 1] == rest[first]);
            }
        }
    }
}

/// The search always ends, and as it should: taking the answers of a system with these devices
/// one after the other leads to what [`search`] says.
pub proof fn search_ends(devices: Seq<ListedDevice>, answers: nat)
    requires
        devices.len() <= u32::MAX,
        answers >= 2 + 3 * devices.len(),
    ensures
        search_after(devices, answers) == search(devices),
{
    lemma_search(devices);
    match search(devices) {
        SearchView::Found(path) => {
            let first = choose|first: int|
                0 <= first < devices.len() && (#[trigger] devices[first]).matches_search() && path
                    == path_of(devices[first].object_name.text()->0) && forall|i: int|
                    0 <= i < first ==> !(#[trigger] devices[i]).matches_search();
            search_finds_the_first(devices, first, answers);
        },
        _ => {
            search_without_a_match_fails(devices, answers);
        },
    }
}

/// Until the search has ended, each answer of the system is one to what it asks.
pub proof fn search_takes_every_answer(devices: Seq<ListedDevice>, answers: nat)
    requires
        devices.len() <= u32::MAX,
        all_answer(devices),
    ensures
        ({
            let state = search_after(devices, answers);
            state is Found || state is Failed || answer_of(devices, state).answers(state)
        }),
{
    lemma_index_in_list(devices, answers);
}

proof fn lemma_index_in_list(devices: Seq<ListedDevice>, answers: nat)
    requires
        devices.len() <= u32::MAX,
    ensures
        match search_after(devices, answers) {
            SearchView::Enumerate { index } => index <= devices.len(),
            SearchView::ReadInstanceId { index } => index < devices.len(),
            SearchView::ReadObjectName { index } => index < devices.len(),
            _ => true,
        },
    decreases answers,
{
    if answers > 0 {
        lemma_index_in_list(devices, (answers - 1) as nat);
    }
}

/// The text of a property is that of all units in front of the terminating one, however many there
/// are and whatever stands behind it: for the units of a text, that text. Half a unit more does not
/// count.
pub proof fn property_has_its_text(
    s: Seq<char>,
    units: Seq<u16>,
    rest: Seq<u16>,
    required_size: u32,
)
    ensures
        required_size == 2 * (utf16(s).len() + 1) ==> units_text(
            utf16(s).push(0) + rest,
            required_size,
        ) == Some(s),
        2 * (units.len() + 1) <= required_size <= 2 * (units.len() + 1) + 1 ==> units_text(
            units.push(0) + rest,
            required_size,
        ) == Some(utf16_text(units)),
        units_text(units, 0) is None,
        units_text(units, 1) == Some(Seq::<char>::empty()),
{
    utf16_round_trip(s);
    let n = utf16(s).len() as int;
    assert((utf16(s).push(0) + rest).take(n) =~= utf16(s));
    assert((units.push(0) + rest).take(units.len() as int) =~= units);
    assert(units.take(0) =~= seq![]);
}

/// A property is valid where the system needs no more bytes than those of its units and of a
/// terminating one.
pub proof fn property_fits(property: DeviceProperty)
    ensures
        property.required_size <= 2 * (property.units@.len() + 1) + 1 <==> property.valid(),
{
}

/// A device is the one searched for exactly where its instance identifier has the part `ETST0001`.
pub proof fn test_device_by_its_part(
    before: Seq<char>,
    behind: Seq<char>,
    instance_id: Option<Seq<char>>,
) -> (around: (Seq<char>, Seq<char>))
    ensures
        is_test_device(Some(before + "ETST0001"@ + behind)),
        is_test_device(instance_id) ==> instance_id == Some(around.0 + "ETST0001"@ + around.1),
        !is_test_device(None),
{
    part_is_found(before, "ETST0001"@, behind);
    if is_test_device(instance_id) {
        found_part_stands(instance_id->0, "ETST0001"@)
    } else {
        (before, behind)
    }
}

/// The search ends at a device exactly where the system has both properties of it and the first one
/// is that of the device searched for.
pub proof fn device_matches_by_its_properties(device: ListedDevice)
    ensures
        device.matches_search() <==> {
            &&& device.instance_id is Property
            &&& device.instance_id->Property_0.required_size > 0
            &&& has_part(
                units_text(
                    device.instance_id->Property_0.units@,
                    device.instance_id->Property_0.required_size,
                )->0,
                "ETST0001"@,
            )
            &&& device.object_name is Property
            &&& device.object_name->Property_0.required_size > 0
        },
{
}

/// The path that the search finds is the object name of the first device that matches, in full,
/// behind the global root.
pub proof fn found_path_names_the_object(
    devices: Seq<ListedDevice>,
    first: int,
    name: Seq<char>,
    rest: Seq<u16>,
    answers: nat,
)
    requires
        0 <= first < devices.len() <= u32::MAX,
        devices[first].matches_search(),
        forall|i: int| 0 <= i < first ==> !(#[trigger] devices[i]).matches_search(),
        devices[first].object_name->Property_0.units@ == utf16(name).push(0) + rest,
        devices[first].object_name->Property_0.required_size == 2 * (utf16(name).len() + 1),
        answers >= 1 + 3 * (first + 1),
    ensures
        search_after(devices, answers) == SearchView::Found("\\\\.\\GLOBALROOT"@ + name),
{
    let property = devices[first].object_name->Property_0;
    property_has_its_text(name, seq![], rest, property.required_size);
    search_finds_the_first(devices, first, answers);
}

/// A search whose devices could not be listed fails with the code of that; one that finds no
/// device fails with the code -1.
pub proof fn failed_search_has_a_code(code: i32, index: u32)
    ensures
        next_state(SearchView::List, SearchEvent::ListFailed(code)) == SearchView::Failed(
            AcpiParseError::EvaluationFailed(code),
        ),
        next_state(SearchView::Enumerate { index }, SearchEvent::Absent) == SearchView::Failed(
            AcpiParseError::EvaluationFailed((-1) as i32),
        ),
{
}

/// Each device is asked for its own properties: a step stays at its index, or goes on to the next.
pub proof fn search_steps_through_the_list(index: u32, event: SearchEvent)
    requires
        index < u32::MAX,
    ensures
        next_state(SearchView::List, SearchEvent::Listed) == (SearchView::Enumerate { index: 0 }),
        next_state(SearchView::Enumerate { index }, SearchEvent::Present) == (
        SearchView::ReadInstanceId { index }),
        next_state(SearchView::ReadInstanceId { index }, event) == (if is_test_device(event.text()) {
            SearchView::ReadObjectName { index }
        } else {
            SearchView::Enumerate { index: (index + 1) as u32 }
        }),
        event.text() is None ==> next_state(SearchView::ReadObjectName { index }, event) == (
        SearchView::Enumerate { index: (index + 1) as u32 }),
        event.text() is Some ==> next_state(SearchView::ReadObjectName { index }, event)
            == SearchView::Found("\\\\.\\GLOBALROOT"@ + event.text()->0),
        event is Property ==> event.text() == units_text(
            event->Property_0.units@,
            event->Property_0.required_size,
        ),
        event !is Property ==> event.text() is None,
{
}

/// The model of a state holds all that the state holds.
pub proof fn search_model(index: u32, path: String, e: AcpiParseError)
    ensures
        SearchState::List@ == SearchView::List,
        (SearchState::Enumerate { index })@ == (SearchView::Enumerate { index }),
        (SearchState::ReadInstanceId { index })@ == (SearchView::ReadInstanceId { index }),
        (SearchState::ReadObjectName { index })@ == (SearchView::ReadObjectName { index }),
        SearchState::Found(path)@ == SearchView::Found(path@),
        SearchState::Failed(e)@ == SearchView::Failed(e),
{
}

} // verus!
