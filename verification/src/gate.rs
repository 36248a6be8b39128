//! Gates: the trigger volumes through which the player leaves and enters a
//! level.

use vstd::prelude::*;
use vstd::std_specs::convert::FromSpecImpl;
use crate::fields::EntityInstance;
use crate::fields::FieldReturn;
use crate::fields::FieldValue;
use crate::physics::CollisionEvent;
use crate::physics::TupleUtil;
use crate::transition::StartTransition;

verus! {

/// The label of a gate.
#[derive(Clone, Copy, PartialEq, Eq, Structural, Debug)]
pub enum Gate {
    /// Leads to the level with this index.
    Exit(usize),
    /// The arrival point for a player who comes from the level with this index.
    Entry(usize),
}

impl Default for Gate {
    fn default() -> (gate: Self)
        ensures
            gate == Gate::Exit(0),
    {
        Gate::Exit(0)
    }
}

/// The level index that an entity's field `to` names: 0 where the field is
/// missing, is no integer, is not set, or is negative.
pub open spec fn gate_index(entity: EntityInstance) -> usize {
    match entity.field("to"@) {
        Some(FieldValue::Int(Some(level_index))) => if level_index >= 0 {
            level_index as usize
        } else {
            0
        },
        _ => 0,
    }
}

/// What gate an entity describes: an entry where its field `Gate` reads
/// `Entry`, an exit in every other case.
pub open spec fn gate_of(entity: EntityInstance) -> Gate {
    match entity.text("Gate"@) {
        Some(kind) => if kind@ == "Entry"@ {
            Gate::Entry(gate_index(entity))
        } else {
            Gate::Exit(gate_index(entity))
        },
        None => Gate::Exit(gate_index(entity)),
    }
}

impl From<EntityInstance> for Gate {
    fn from(entity: EntityInstance) -> (gate: Self) {
        let index = match entity.get_field_value("to") {
            Some(FieldValue::Int(Some(level_index))) => {
                if level_index >= 0 {
                    level_index as usize
                } else {
                    0
                }
            },
            _ => 0,
        };
        match entity.get_string_value("Gate") {
            Some(kind) => {
                if kind == "Entry".to_owned() {
                    Gate::Entry(index)
                } else {
                    Gate::Exit(index)
                }
            },
            None => Gate::Exit(index),
        }
    }
}

impl FromSpecImpl<EntityInstance> for Gate {
    open spec fn obeys_from_spec() -> bool {
        true
    }

    open spec fn from_spec(entity: EntityInstance) -> Self {
        gate_of(entity)
    }
}

/// What is wrong with a field.
#[derive(Clone, Copy, PartialEq, Eq, Structural, Debug)]
pub enum FieldError {
    /// No field goes by the name.
    Missing,
    /// The field holds another kind of value.
    WrongKind,
    /// The field is of the right kind and holds nothing.
    Unset,
    /// The field holds a value that is not allowed.
    Invalid,
}

/// Why an entity is no gate.
#[derive(Clone, Copy, PartialEq, Eq, Structural, Debug)]
pub enum GateError {
    /// The field `to` does not name a level.
    To(FieldError),
    /// The field `Gate` does not say `Entry` or `Exit`.
    Kind(FieldError),
}

/// What the field `to` holds, read strictly: a level index that is set and
/// not negative.
pub open spec fn strict_index(entity: EntityInstance) -> Result<usize, FieldError> {
    match entity.field("to"@) {
        Some(FieldValue::Int(Some(level_index))) => if level_index >= 0 {
            Ok(level_index as usize)
        } else {
            Err(FieldError::Invalid)
        },
        Some(FieldValue::Int(None)) => Err(FieldError::Unset),
        Some(_) => Err(FieldError::WrongKind),
        None => Err(FieldError::Missing),
    }
}

/// What the field `Gate` holds, read strictly: `true` for `Entry`, `false`
/// for `Exit`, and nothing else will do.
pub open spec fn strict_kind(entity: EntityInstance) -> Result<bool, FieldError> {
    match entity.field("Gate"@) {
        Some(FieldValue::String(Some(kind))) | Some(FieldValue::Enum(Some(kind))) => if kind@
            == "Entry"@ {
            Ok(true)
        } else if kind@ == "Exit"@ {
            Ok(false)
        } else {
            Err(FieldError::Invalid)
        },
        Some(FieldValue::String(None)) | Some(FieldValue::Enum(None)) => Err(FieldError::Unset),
        Some(_) => Err(FieldError::WrongKind),
        None => Err(FieldError::Missing),
    }
}

/// What gate an entity describes when nothing is made up for it: both fields
/// must be there, of the right kind, set, and allowed. The field `to` is
/// looked at first.
pub open spec fn strict_gate_of(entity: EntityInstance) -> Result<Gate, GateError> {
    match strict_index(entity) {
        Err(error) => Err(GateError::To(error)),
        Ok(index) => match strict_kind(entity) {
            Err(error) => Err(GateError::Kind(error)),
            Ok(entry) => if entry {
                Ok(Gate::Entry(index))
            } else {
                Ok(Gate::Exit(index))
            },
        },
    }
}

/// Reads a gate off an entity without making anything up: where `Gate::from`
/// would fall back on a default, this says what is wrong.
pub fn validate_gate(entity: &EntityInstance) -> (gate: Result<Gate, GateError>)
    ensures
        gate == strict_gate_of(*entity),
        gate matches Ok(found) ==> found == gate_of(*entity),
{
    let index = match entity.get_field_value("to") {
        Some(FieldValue::Int(Some(level_index))) => {
            if level_index >= 0 {
                level_index as usize
            } else {
                return Err(GateError::To(FieldError::Invalid));
            }
        },
        Some(FieldValue::Int(None)) => {
            return Err(GateError::To(FieldError::Unset));
        },
        Some(_) => {
            return Err(GateError::To(FieldError::WrongKind));
        },
        None => {
            return Err(GateError::To(FieldError::Missing));
        },
    };
    let kind = match entity.get_field_value("Gate") {
        Some(FieldValue::String(Some(kind))) => kind,
        Some(FieldValue::Enum(Some(kind))) => kind,
        Some(FieldValue::String(None)) => {
            return Err(GateError::Kind(FieldError::Unset));
        },
        Some(FieldValue::Enum(None)) => {
            return Err(GateError::Kind(FieldError::Unset));
        },
        Some(_) => {
            return Err(GateError::Kind(FieldError::WrongKind));
        },
        None => {
            return Err(GateError::Kind(FieldError::Missing));
        },
    };
    if kind == "Entry".to_owned() {
        Ok(Gate::Entry(index))
    } else if kind == "Exit".to_owned() {
        Ok(Gate::Exit(index))
    } else {
        Err(GateError::Kind(FieldError::Invalid))
    }
}

/// Which level is shown. Only a selection by index takes part in the rules.
#[derive(Clone, Copy, PartialEq, Eq, Structural, Debug)]
pub enum LevelSelection {
    /// The level at this position in the world file.
    Index(usize),
    /// A level picked in some other way.
    Other,
}

/// A gate as it stands in the world: the entity that carries it, its label,
/// and where it is. The rules never look inside a position.
#[derive(Debug)]
pub struct GateSite<P> {
    pub entity: u64,
    pub gate: Gate,
    pub position: P,
}

/// Index of the first gate at or after `start` that is an entry from `origin`.
pub open spec fn entry_from<P>(gates: Seq<GateSite<P>>, origin: usize, start: int) -> Option<int>
    decreases gates.len() - start,
{
    if start < 0 || start >= gates.len() {
        None
    } else if gates[start].gate == Gate::Entry(origin) {
        Some(start)
    } else {
        entry_from(gates, origin, start + 1)
    }
}

/// Index of the first gate that is an entry from `origin`.
pub open spec fn first_entry<P>(gates: Seq<GateSite<P>>, origin: usize) -> Option<int> {
    entry_from(gates, origin, 0)
}

/// What `entry_from` finds is the least matching index at or after `start`,
/// and it finds nothing only where nothing matches.
pub proof fn lemma_entry_from<P>(gates: Seq<GateSite<P>>, origin: usize, start: int)
    requires
        0 <= start,
    ensures
        match entry_from(gates, origin, start) {
            Some(index) => {
                &&& start <= index < gates.len()
                &&& gates[index].gate == Gate::Entry(origin)
                &&& forall|j: int| start <= j < index ==> gates[j].gate != Gate::Entry(origin)
            },
            None => forall|j: int| start <= j < gates.len() ==> gates[j].gate != Gate::Entry(origin),
        },
    decreases gates.len() - start,
{
    if start < gates.len() && gates[start].gate != Gate::Entry(origin) {
        lemma_entry_from(gates, origin, start + 1);
    }
}

/// The first gate in the list is found whenever some gate is an entry from
/// `origin`: a matching gate is never passed over.
pub proof fn lemma_first_entry<P>(gates: Seq<GateSite<P>>, origin: usize)
    ensures
        first_entry(gates, origin) is Some <==> exists|j: int|
            0 <= j < gates.len() && #[trigger] gates[j].gate == Gate::Entry(origin),
        first_entry(gates, origin) matches Some(index) ==> {
            &&& 0 <= index < gates.len()
            &&& gates[index].gate == Gate::Entry(origin)
            &&& forall|j: int| 0 <= j < index ==> gates[j].gate != Gate::Entry(origin)
        },
{
    lemma_entry_from(gates, origin, 0);
}

/// Finds the first gate that is an entry from `origin`.
pub fn find_entry<P>(gates: &Vec<GateSite<P>>, origin: usize) -> (found: Option<usize>)
    ensures
        found matches Some(index) ==> first_entry(gates@, origin) == Some(index as int) && index
            < gates@.len() && gates@[index as int].gate == Gate::Entry(origin),
        found is None ==> first_entry(gates@, origin) is None,
{
    let mut i: usize = 0;
    while i < gates.len()
        invariant
            i <= gates@.len(),
            first_entry(gates@, origin) == entry_from(gates@, origin, i as int),
        decreases gates@.len() - i,
    {
        match gates[i].gate {
            Gate::Entry(from) => {
                if from == origin {
                    return Some(i);
                }
            },
            Gate::Exit(_) => {},
        }
        i += 1;
    }
    None
}

/// Label of the first gate at or after `start` whose entity is one of `bodies`.
pub open spec fn touched_from<P>(gates: Seq<GateSite<P>>, bodies: (u64, u64), start: int) -> Option<
    Gate,
>
    decreases gates.len() - start,
{
    if start < 0 || start >= gates.len() {
        None
    } else if bodies.holds(gates[start].entity) {
        Some(gates[start].gate)
    } else {
        touched_from(gates, bodies, start + 1)
    }
}

/// The request that one contact gives rise to: the contact has just started,
/// the player's shape takes part in it, the first gate among the two bodies is
/// an exit, the level is selected by index, and the exit leads elsewhere.
pub open spec fn gate_request<P>(
    player: u64,
    gates: Seq<GateSite<P>>,
    selection: LevelSelection,
    event: CollisionEvent,
) -> Option<StartTransition> {
    if event.started && event.shapes.holds(player) {
        match (touched_from(gates, event.bodies, 0), selection) {
            (Some(Gate::Exit(next)), LevelSelection::Index(current)) => if current != next {
                Some(StartTransition { from: current, to: next })
            } else {
                None
            },
            _ => None,
        }
    } else {
        None
    }
}

/// The requests that a frame's contacts give rise to, in the order of the
/// contacts.
pub open spec fn gate_requests<P>(
    player: u64,
    gates: Seq<GateSite<P>>,
    selection: LevelSelection,
    events: Seq<CollisionEvent>,
) -> Seq<StartTransition>
    decreases events.len(),
{
    if events.len() == 0 {
        Seq::empty()
    } else {
        let earlier = gate_requests(player, gates, selection, events.drop_last());
        match gate_request(player, gates, selection, events.last()) {
            Some(request) => earlier.push(request),
            None => earlier,
        }
    }
}

/// Every request that a frame's contacts give rise to leaves the selected
/// level for another one, and there are no more requests than contacts.
pub proof fn lemma_requests_leave_the_level<P>(
    player: u64,
    gates: Seq<GateSite<P>>,
    selection: LevelSelection,
    events: Seq<CollisionEvent>,
)
    ensures
        gate_requests(player, gates, selection, events).len() <= events.len(),
        forall|i: int|
            0 <= i < gate_requests(player, gates, selection, events).len() ==> {
                let request = #[trigger] gate_requests(player, gates, selection, events)[i];
                selection == LevelSelection::Index(request.from) && request.from != request.to
            },
        !(selection is Index) ==> gate_requests(player, gates, selection, events).len() == 0,
    decreases events.len(),
{
    if events.len() > 0 {
        lemma_requests_leave_the_level(player, gates, selection, events.drop_last());
    }
}

/// Finds the first gate whose entity is one of `bodies`.
fn touched_gate<P>(gates: &Vec<GateSite<P>>, bodies: (u64, u64)) -> (found: Option<Gate>)
    ensures
        found == touched_from(gates@, bodies, 0),
{
    let mut i: usize = 0;
    while i < gates.len()
        invariant
            i <= gates@.len(),
            touched_from(gates@, bodies, 0) == touched_from(gates@, bodies, i as int),
        decreases gates@.len() - i,
    {
        if bodies.any(gates[i].entity) {
            return Some(gates[i].gate);
        }
        i += 1;
    }
    None
}

/// Turns this frame's contacts into transition requests. With no player
/// there is nothing to do.
pub fn register_level_gate_collisions<P>(
    player: Option<u64>,
    gates: &Vec<GateSite<P>>,
    selection: &LevelSelection,
    events: &Vec<CollisionEvent>,
) -> (requests: Vec<StartTransition>)
    ensures
        requests@ == match player {
            Some(player) => gate_requests(player, gates@, *selection, events@),
            None => Seq::empty(),
        },
{
    let mut requests: Vec<StartTransition> = Vec::new();
    let player = match player {
        Some(player) => player,
        None => {
            return requests;
        },
    };
    let mut i: usize = 0;
    while i < events.len()
        invariant
            i <= events@.len(),
            requests@ == gate_requests(player, gates@, *selection, events@.take(i as int)),
        decreases events@.len() - i,
    {
        let event = events[i];
        proof {
            assert(events@.take(i + 1).drop_last() == events@.take(i as int));
            assert(events@.take(i + 1).last() == event);
        }
        if event.started && event.shapes.any(player) {
            if let Some(Gate::Exit(next)) = touched_gate(gates, event.bodies) {
                if let LevelSelection::Index(current) = *selection {
                    if current != next {
                        requests.push(StartTransition { from: current, to: next });
                    }
                }
            }
        }
        i += 1;
    }
    proof {
        assert(events@.take(events@.len() as int) == events@);
    }
    requests
}

} // verus!
