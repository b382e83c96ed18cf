//! What the planet's logic assumes of the game framework.
//!
//! The framework's types are opaque here. What a value of them holds is named
//! by the spec functions below, and the contracts in this file say, in those
//! names, what the framework's functions do. None of this is proved: it was
//! read off the framework's source.

use vstd::prelude::*;
use common_game::components::energy_cell::EnergyCell;
use common_game::components::planet::PlanetState;
use common_game::components::resource;
use common_game::components::resource::{
    BasicResource, Combinator, ComplexResource, ComplexResourceRequest, Generator,
    GenericResource,
};
use common_game::components::rocket::Rocket;
use common_game::components::sunray::Sunray;
use crate::messages::{BasicResourceType, ComplexResourceType, DummyPlanetState};

verus! {

/// The framework's `PlanetState`: the cells of a planet, its rocket and its
/// identifier.
#[verifier::external_type_specification]
#[verifier::external_body]
pub struct ExPlanetState(PlanetState);

/// The framework's `EnergyCell`: one cell, charged or not.
#[verifier::external_type_specification]
#[verifier::external_body]
pub struct ExEnergyCell(EnergyCell);

/// The framework's `Sunray`: what charges a cell.
#[verifier::external_type_specification]
#[verifier::external_body]
pub struct ExSunray(Sunray);

/// The framework's `Rocket`.
#[verifier::external_type_specification]
#[verifier::external_body]
pub struct ExRocket(Rocket);

/// The framework's `Generator`: the recipes for basic resources.
#[verifier::external_type_specification]
#[verifier::external_body]
pub struct ExGenerator(Generator);

/// The framework's `Combinator`: the recipes for complex resources.
#[verifier::external_type_specification]
#[verifier::external_body]
pub struct ExCombinator(Combinator);

/// The framework's `BasicResource`: a basic resource of any kind.
#[verifier::external_type_specification]
#[verifier::external_body]
pub struct ExBasicResource(BasicResource);

/// The framework's `ComplexResource`: a complex resource of any kind.
#[verifier::external_type_specification]
#[verifier::external_body]
pub struct ExComplexResource(ComplexResource);

/// The framework's `GenericResource`: a resource of any kind.
#[verifier::external_type_specification]
#[verifier::external_body]
pub struct ExGenericResource(GenericResource);

/// The framework's `ComplexResourceRequest`: the kind of complex resource
/// that is asked for, with the two resources to make it from.
#[verifier::external_type_specification]
#[verifier::external_body]
pub struct ExComplexResourceRequest(ComplexResourceRequest);

/// For each energy cell of the planet, in order, whether it is charged.
pub uninterp spec fn cell_charges(state: PlanetState) -> Seq<bool>;

/// Whether a rocket stands ready on the planet.
pub uninterp spec fn rocket_ready(state: PlanetState) -> bool;

/// Whether a planet of this type can have a rocket at all.
pub uninterp spec fn rocket_allowed(state: PlanetState) -> bool;

/// The planet's identifier.
pub uninterp spec fn planet_ident(state: PlanetState) -> u32;

/// Whether the cell is charged.
pub uninterp spec fn cell_charged(cell: EnergyCell) -> bool;

/// The kinds of basic resource that the generator has a recipe for.
pub uninterp spec fn generator_recipes(generator: Generator) -> Set<BasicResourceType>;

/// The kinds of complex resource that the combinator has a recipe for.
pub uninterp spec fn combinator_recipes(combinator: Combinator) -> Set<ComplexResourceType>;

/// The kind of a basic resource.
pub uninterp spec fn basic_resource_type(made: BasicResource) -> BasicResourceType;

/// The kind of a complex resource.
pub uninterp spec fn complex_resource_type(made: ComplexResource) -> ComplexResourceType;

/// The kind of complex resource that a request asks for.
pub uninterp spec fn requested_type(request: ComplexResourceRequest) -> ComplexResourceType;

/// The two resources that a request brings along, in its order.
pub uninterp spec fn request_inputs(request: ComplexResourceRequest) -> (
    GenericResource,
    GenericResource,
);

/// What the handlers read of a planet and change in it.
#[verifier::ext_equal]
pub struct PlanetModel {
    pub id: u32,
    pub cells: Seq<bool>,
    pub rocket: bool,
    pub rocket_allowed: bool,
}

/// The planet behind a `PlanetState`.
pub open spec fn model(state: PlanetState) -> PlanetModel {
    PlanetModel {
        id: planet_ident(state),
        cells: cell_charges(state),
        rocket: rocket_ready(state),
        rocket_allowed: rocket_allowed(state),
    }
}

/// How many of the cells are charged.
pub open spec fn count_charged(cells: Seq<bool>) -> nat
    decreases cells.len(),
{
    if cells.len() == 0 {
        0
    } else {
        count_charged(cells.drop_last()) + if cells.last() {
            1nat
        } else {
            0nat
        }
    }
}

/// The reason that the planet itself gives when it has no charged cell to
/// combine with.
pub open spec fn no_cell_reason() -> Seq<char> {
    "no available cell"@
}

/// `PlanetState::id` returns the planet's identifier.
pub assume_specification[ PlanetState::id ](state: &PlanetState) -> (id: u32)
    ensures
        id == planet_ident(*state),
;

/// `PlanetState::cell` lends the cell at index `i`, and panics if there is
/// none.
pub assume_specification[ PlanetState::cell ](state: &PlanetState, i: usize) -> (cell:
    &EnergyCell)
    requires
        i < cell_charges(*state).len(),
    ensures
        cell_charged(*cell) == cell_charges(*state)[i as int],
;

/// `PlanetState::cell_mut` lends the cell at index `i` for change, and panics
/// if there is none. What the borrower leaves in the cell is what the planet
/// then has at `i`; nothing else of the planet changes.
pub assume_specification[ PlanetState::cell_mut ](state: &mut PlanetState, i: usize) -> (cell:
    &mut EnergyCell)
    requires
        i < cell_charges(*old(state)).len(),
    ensures
        cell_charged(*cell) == cell_charges(*old(state))[i as int],
        cell_charges(*final(state)) == cell_charges(*old(state)).update(
            i as int,
            cell_charged(*final(cell)),
        ),
        rocket_ready(*final(state)) == rocket_ready(*old(state)),
        rocket_allowed(*final(state)) == rocket_allowed(*old(state)),
        planet_ident(*final(state)) == planet_ident(*old(state)),
;

/// `PlanetState::can_have_rocket` tells whether the planet's type allows a
/// rocket.
pub assume_specification[ PlanetState::can_have_rocket ](state: &PlanetState) -> (allowed: bool)
    ensures
        allowed == rocket_allowed(*state),
;

/// `PlanetState::has_rocket` tells whether a rocket stands ready.
pub assume_specification[ PlanetState::has_rocket ](state: &PlanetState) -> (ready: bool)
    ensures
        ready == rocket_ready(*state),
;

/// `PlanetState::take_rocket` hands out the rocket that stands ready, if
/// there is one, and leaves none behind. The cells are not touched.
pub assume_specification[ PlanetState::take_rocket ](state: &mut PlanetState) -> (rocket: Option<
    Rocket,
>)
    ensures
        rocket is Some <==> rocket_ready(*old(state)),
        !rocket_ready(*final(state)),
        cell_charges(*final(state)) == cell_charges(*old(state)),
        rocket_allowed(*final(state)) == rocket_allowed(*old(state)),
        planet_ident(*final(state)) == planet_ident(*old(state)),
;

/// `PlanetState::build_rocket` builds a rocket from the cell at index `i` and
/// keeps it on the planet. It succeeds exactly when the planet's type allows a
/// rocket, none stands ready and the cell is charged; the cell is then
/// discharged. When it fails, the planet is as before. It panics if the
/// planet may build and has no cell at `i`.
pub assume_specification[ PlanetState::build_rocket ](state: &mut PlanetState, i: usize) -> (built:
    Result<(), String>)
    requires
        i < cell_charges(*old(state)).len(),
    ensures
        built is Ok <==> rocket_allowed(*old(state)) && !rocket_ready(*old(state)) && cell_charges(
            *old(state),
        )[i as int],
        built is Ok ==> cell_charges(*final(state)) == cell_charges(*old(state)).update(
            i as int,
            false,
        ) && rocket_ready(*final(state)),
        built is Err ==> cell_charges(*final(state)) == cell_charges(*old(state)) && rocket_ready(
            *final(state),
        ) == rocket_ready(*old(state)),
        rocket_allowed(*final(state)) == rocket_allowed(*old(state)),
        planet_ident(*final(state)) == planet_ident(*old(state)),
;

/// `EnergyCell::charge` leaves the cell charged, whatever it was.
pub assume_specification[ EnergyCell::charge ](cell: &mut EnergyCell, sunray: Sunray)
    ensures
        cell_charged(*final(cell)),
;

/// `EnergyCell::is_charged` tells whether the cell is charged.
pub assume_specification[ EnergyCell::is_charged ](cell: &EnergyCell) -> (charged: bool)
    ensures
        charged == cell_charged(*cell),
;

/// `Combinator::try_make` makes the complex resource that the request asks
/// for. It succeeds exactly when the combinator has the recipe and the cell is
/// charged; the cell is then discharged. When it fails, the cell is as before
/// and the error holds a reason of the combinator's own and the request's two
/// resources.
pub assume_specification[ Combinator::try_make ](
    combinator: &Combinator,
    req: ComplexResourceRequest,
    energy_cell: &mut EnergyCell,
) -> (made: Result<ComplexResource, (String, GenericResource, GenericResource)>)
    ensures
        made is Ok <==> combinator_recipes(*combinator).contains(requested_type(req))
            && cell_charged(*old(energy_cell)),
        made matches Ok(complex) ==> complex_resource_type(complex) == requested_type(req),
        made matches Err(failure) ==> (failure.1, failure.2) == request_inputs(req)
            && failure.0@ != no_cell_reason(),
        cell_charged(*final(energy_cell)) == (cell_charged(*old(energy_cell)) && made is Err),
;

/// `Generator::make_oxygen` makes oxygen. It succeeds exactly when the
/// generator has the recipe and the cell is charged; the cell is then
/// discharged. When it fails, the cell is as before.
#[verifier::external_body]
pub(crate) fn make_oxygen(generator: &Generator, cell: &mut EnergyCell) -> (made: Result<
    BasicResource,
    String,
>)
    ensures
        made is Ok <==> generator_recipes(*generator).contains(BasicResourceType::Oxygen)
            && cell_charged(*old(cell)),
        made matches Ok(basic) ==> basic_resource_type(basic) == BasicResourceType::Oxygen,
        cell_charged(*final(cell)) == (cell_charged(*old(cell)) && made is Err),
{
    generator.make_oxygen(cell).map(BasicResource::Oxygen)
}

/// `Generator::make_hydrogen` makes hydrogen, under the same conditions and
/// with the same effect on the cell as `make_oxygen`.
#[verifier::external_body]
pub(crate) fn make_hydrogen(generator: &Generator, cell: &mut EnergyCell) -> (made: Result<
    BasicResource,
    String,
>)
    ensures
        made is Ok <==> generator_recipes(*generator).contains(BasicResourceType::Hydrogen)
            && cell_charged(*old(cell)),
        made matches Ok(basic) ==> basic_resource_type(basic) == BasicResourceType::Hydrogen,
        cell_charged(*final(cell)) == (cell_charged(*old(cell)) && made is Err),
{
    generator.make_hydrogen(cell).map(BasicResource::Hydrogen)
}

/// `Generator::make_carbon` makes carbon, under the same conditions and with
/// the same effect on the cell as `make_oxygen`.
#[verifier::external_body]
pub(crate) fn make_carbon(generator: &Generator, cell: &mut EnergyCell) -> (made: Result<
    BasicResource,
    String,
>)
    ensures
        made is Ok <==> generator_recipes(*generator).contains(BasicResourceType::Carbon)
            && cell_charged(*old(cell)),
        made matches Ok(basic) ==> basic_resource_type(basic) == BasicResourceType::Carbon,
        cell_charged(*final(cell)) == (cell_charged(*old(cell)) && made is Err),
{
    generator.make_carbon(cell).map(BasicResource::Carbon)
}

/// `Generator::make_silicon` makes silicon, under the same conditions and
/// with the same effect on the cell as `make_oxygen`.
#[verifier::external_body]
pub(crate) fn make_silicon(generator: &Generator, cell: &mut EnergyCell) -> (made: Result<
    BasicResource,
    String,
>)
    ensures
        made is Ok <==> generator_recipes(*generator).contains(BasicResourceType::Silicon)
            && cell_charged(*old(cell)),
        made matches Ok(basic) ==> basic_resource_type(basic) == BasicResourceType::Silicon,
        cell_charged(*final(cell)) == (cell_charged(*old(cell)) && made is Err),
{
    generator.make_silicon(cell).map(BasicResource::Silicon)
}

/// Takes a request apart into its two resources, each as a `GenericResource`:
/// the same two that `Combinator::try_make` gives back when it fails.
#[verifier::external_body]
pub(crate) fn take_inputs(request: ComplexResourceRequest) -> (inputs: (
    GenericResource,
    GenericResource,
))
    ensures
        inputs == request_inputs(request),
{
    match request {
        ComplexResourceRequest::Water(lhs, rhs) => (lhs.to_generic(), rhs.to_generic()),
        ComplexResourceRequest::Diamond(lhs, rhs) => (lhs.to_generic(), rhs.to_generic()),
        ComplexResourceRequest::Life(lhs, rhs) => (lhs.to_generic(), rhs.to_generic()),
        ComplexResourceRequest::Robot(lhs, rhs) => (lhs.to_generic(), rhs.to_generic()),
        ComplexResourceRequest::Dolphin(lhs, rhs) => (lhs.to_generic(), rhs.to_generic()),
        ComplexResourceRequest::AIPartner(lhs, rhs) => (lhs.to_generic(), rhs.to_generic()),
    }
}

/// `Generator::all_available_recipes` lists the kinds that the generator has
/// a recipe for, each once and in no stated order.
#[verifier::external_body]
pub(crate) fn basic_recipes(generator: &Generator) -> (recipes: Vec<BasicResourceType>)
    ensures
        recipes@.no_duplicates(),
        forall|kind: BasicResourceType|
            recipes@.contains(kind) <==> generator_recipes(*generator).contains(kind),
{
    generator.all_available_recipes().into_iter().map(
        |kind| match kind {
            resource::BasicResourceType::Oxygen => BasicResourceType::Oxygen,
            resource::BasicResourceType::Hydrogen => BasicResourceType::Hydrogen,
            resource::BasicResourceType::Carbon => BasicResourceType::Carbon,
            resource::BasicResourceType::Silicon => BasicResourceType::Silicon,
        },
    ).collect()
}

/// `Combinator::all_available_recipes` lists the kinds that the combinator
/// has a recipe for, each once and in no stated order.
#[verifier::external_body]
pub(crate) fn complex_recipes(combinator: &Combinator) -> (recipes: Vec<ComplexResourceType>)
    ensures
        recipes@.no_duplicates(),
        forall|kind: ComplexResourceType|
            recipes@.contains(kind) <==> combinator_recipes(*combinator).contains(kind),
{
    combinator.all_available_recipes().into_iter().map(
        |kind| match kind {
            resource::ComplexResourceType::Diamond => ComplexResourceType::Diamond,
            resource::ComplexResourceType::Water => ComplexResourceType::Water,
            resource::ComplexResourceType::Life => ComplexResourceType::Life,
            resource::ComplexResourceType::Robot => ComplexResourceType::Robot,
            resource::ComplexResourceType::Dolphin => ComplexResourceType::Dolphin,
            resource::ComplexResourceType::AIPartner => ComplexResourceType::AIPartner,
        },
    ).collect()
}

/// `PlanetState::to_dummy` gives an overview of the planet: the charge of
/// each cell, the number of charged cells, and whether a rocket stands ready.
#[verifier::external_body]
pub(crate) fn overview(state: &PlanetState) -> (dummy: DummyPlanetState)
    ensures
        dummy.energy_cells@ == cell_charges(*state),
        dummy.charged_cells_count == count_charged(cell_charges(*state)),
        dummy.has_rocket == rocket_ready(*state),
{
    let dummy = state.to_dummy();
    DummyPlanetState {
        energy_cells: dummy.energy_cells,
        charged_cells_count: dummy.charged_cells_count,
        has_rocket: dummy.has_rocket,
    }
}

} // verus!
