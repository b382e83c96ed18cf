//! The planet that keeps its cells in a pool.
//!
//! Each handler takes one message and gives at most one reply. A cell that a
//! handler takes from the pool is back on one of the two stacks before the
//! handler returns: on the free stack if its energy was spent, on the charged
//! stack if it was not.

use vstd::prelude::*;
use common_game::components::planet::PlanetState;
use common_game::components::resource::{Combinator, Generator};
use common_game::components::rocket::Rocket;
use crate::cells::{
    charged_indices, count_charged_cells, generate_resource, lemma_count_bound,
    lemma_count_indices,
};
use crate::game::{
    basic_recipes, basic_resource_type, cell_charges, combinator_recipes, complex_recipes,
    complex_resource_type, count_charged, generator_recipes, model, no_cell_reason, overview,
    request_inputs, requested_type, take_inputs, PlanetModel,
};
use crate::messages::{
    BasicResourceType, ComplexResourceType, ExplorerToPlanet, OrchestratorToPlanet,
    PlanetToExplorer, PlanetToOrchestrator,
};
use crate::stacks::{
    get_charged_cell_index, get_free_cell_index, lemma_acquire, lemma_capacity, lemma_release,
    lemma_room_for_held, push_charged_cell, push_free_cell, CellPool, PoolState,
};
use crate::N_CELLS;

verus! {

/// The pool and the planet that it keeps the books of.
#[verifier::ext_equal]
pub struct World {
    pub pool: PoolState,
    pub planet: PlanetModel,
}

impl World {
    /// The books agree with the planet: no cell is held, the free stack lists
    /// the cells without charge and the charged stack those with one.
    pub open spec fn in_sync(self) -> bool {
        &&& self.planet.cells.len() == N_CELLS
        &&& self.pool.wf()
        &&& self.pool.at_rest()
        &&& forall|i: int|
            0 <= i < self.pool.free.len() ==> !self.planet.cells[self.pool.free[i] as int]
        &&& forall|i: int|
            0 <= i < self.pool.charged.len() ==> self.planet.cells[self.pool.charged[i] as int]
    }

    /// After a sunray: the cell on top of the free stack is charged and goes
    /// to the charged stack. With no free cell nothing changes.
    pub open spec fn absorb(self) -> World {
        match self.pool.top_free() {
            Some(index) => World {
                pool: self.pool.acquire_free().release_charged(index),
                planet: PlanetModel {
                    cells: self.planet.cells.update(index as int, true),
                    ..self.planet
                },
            },
            None => self,
        }
    }

    /// The cell on top of the charged stack does hold a charge: its energy
    /// can be spent.
    pub open spec fn can_spend(self) -> bool {
        self.pool.top_charged() matches Some(index) && self.planet.cells[index as int]
    }

    /// After the energy of the cell on top of the charged stack was spent:
    /// the cell is discharged and goes to the free stack.
    pub open spec fn spend(self) -> World {
        match self.pool.top_charged() {
            Some(index) => World {
                pool: self.pool.acquire_charged().release_free(index),
                planet: PlanetModel {
                    cells: self.planet.cells.update(index as int, false),
                    ..self.planet
                },
            },
            None => self,
        }
    }

    /// After the rocket that stood ready was taken.
    pub open spec fn launch(self) -> World {
        World { pool: self.pool, planet: PlanetModel { rocket: false, ..self.planet } }
    }

    /// Whether an asteroid is met with a rocket: the planet's type must allow
    /// one, and either one stands ready or one can be built.
    pub open spec fn defended(self) -> bool {
        self.planet.rocket_allowed && (self.planet.rocket || self.can_spend())
    }

    /// After an asteroid: a standing rocket is used up; else, where one can
    /// be built, a cell's energy is spent on it.
    pub open spec fn defend(self) -> World {
        if !self.planet.rocket_allowed {
            self
        } else if self.planet.rocket {
            self.launch()
        } else if self.can_spend() {
            self.spend()
        } else {
            self
        }
    }
}

/// The planet's behaviour. It owns the pool of its cells.
pub struct OneMillionCrabs {
    pool: CellPool,
}

impl View for OneMillionCrabs {
    type V = PoolState;

    closed spec fn view(&self) -> PoolState {
        self.pool@
    }
}

impl OneMillionCrabs {
    /// The behaviour of a new planet: all cells are free.
    pub fn new() -> (ai: OneMillionCrabs)
        ensures
            ai@ == PoolState::initial(),
            ai@.wf(),
    {
        OneMillionCrabs { pool: CellPool::new() }
    }

    /// The pool.
    pub fn pool(&self) -> (pool: &CellPool)
        ensures
            pool@ == self@,
    {
        &self.pool
    }

    /// Handles a message of the orchestrator.
    ///
    /// A sunray charges the cell on top of the free stack, which then goes to
    /// the charged stack; the reply names that cell, or says that there was
    /// none. A request for the internal state is answered with an overview of
    /// the planet. Any other message changes nothing and gets no reply.
    pub fn handle_orchestrator_msg(
        &mut self,
        state: &mut PlanetState,
        _generator: &Generator,
        _combinator: &Combinator,
        msg: OrchestratorToPlanet,
    ) -> (reply: Option<PlanetToOrchestrator>)
        requires
            old(self)@.wf(),
            cell_charges(*old(state)).len() == N_CELLS,
        ensures
            final(self)@.wf(),
            ({
                let before = World { pool: old(self)@, planet: model(*old(state)) };
                let after = World { pool: final(self)@, planet: model(*final(state)) };
                &&& match msg {
                    OrchestratorToPlanet::Sunray(_) => {
                        &&& after == before.absorb()
                        &&& reply == Some(
                            PlanetToOrchestrator::SunrayAck {
                                planet_id: before.planet.id,
                                charged_cell: before.pool.top_free(),
                            },
                        )
                    },
                    OrchestratorToPlanet::InternalStateRequest => {
                        &&& after == before
                        &&& reply matches Some(
                            PlanetToOrchestrator::InternalStateResponse { planet_id, planet_state },
                        )
                        &&& planet_id == before.planet.id
                        &&& planet_state.energy_cells@ == before.planet.cells
                        &&& planet_state.charged_cells_count == count_charged(before.planet.cells)
                        &&& planet_state.has_rocket == before.planet.rocket
                    },
                    _ => after == before && reply is None,
                }
                &&& before.in_sync() ==> after.in_sync()
            }),
    {
        proof {
            lemma_acquire(self.pool@);
        }
        match msg {
            OrchestratorToPlanet::InternalStateRequest => {
                Some(
                    PlanetToOrchestrator::InternalStateResponse {
                        planet_id: state.id(),
                        planet_state: overview(state),
                    },
                )
            },
            OrchestratorToPlanet::Sunray(sunray) => {
                let taken = get_free_cell_index(&mut self.pool);
                if let Some(index) = taken {
                    proof {
                        lemma_release(self.pool@, index);
                        let before = World { pool: old(self)@, planet: model(*old(state)) };
                        if before.in_sync() {
                            lemma_absorb_keeps_in_sync(before);
                        }
                    }
                    state.cell_mut(index as usize).charge(sunray);
                    push_charged_cell(&mut self.pool, index);
                }
                Some(PlanetToOrchestrator::SunrayAck { planet_id: state.id(), charged_cell: taken })
            },
            _ => None,
        }
    }

    /// Handles a message of an explorer. Every message is answered.
    ///
    /// The questions for the charged cells and for the recipes only read. A
    /// request to generate or to combine takes the cell on top of the charged
    /// stack. It succeeds exactly when there is such a cell, the cell does
    /// hold a charge and the recipe is there; the cell's energy is then spent
    /// and the cell goes to the free stack. When it fails, pool and planet are
    /// as before, and a request to combine gets its two resources back, with
    /// the planet's own reason if there was no cell to take.
    pub fn handle_explorer_msg(
        &mut self,
        state: &mut PlanetState,
        generator: &Generator,
        combinator: &Combinator,
        msg: ExplorerToPlanet,
    ) -> (reply: Option<PlanetToExplorer>)
        requires
            old(self)@.wf(),
            cell_charges(*old(state)).len() == N_CELLS,
        ensures
            final(self)@.wf(),
            ({
                let before = World { pool: old(self)@, planet: model(*old(state)) };
                let after = World { pool: final(self)@, planet: model(*final(state)) };
                &&& match msg {
                    ExplorerToPlanet::AvailableEnergyCellRequest { .. } => {
                        &&& after == before
                        &&& reply matches Some(
                            PlanetToExplorer::AvailableEnergyCellResponse { available_cells },
                        )
                        &&& available_cells == count_charged(before.planet.cells)
                    },
                    ExplorerToPlanet::SupportedResourceRequest { .. } => {
                        &&& after == before
                        &&& reply matches Some(
                            PlanetToExplorer::SupportedResourceResponse { resource_list },
                        )
                        &&& resource_list@.no_duplicates()
                        &&& forall|kind: BasicResourceType|
                            resource_list@.contains(kind) <==> generator_recipes(
                                *generator,
                            ).contains(kind)
                    },
                    ExplorerToPlanet::SupportedCombinationRequest { .. } => {
                        &&& after == before
                        &&& reply matches Some(
                            PlanetToExplorer::SupportedCombinationResponse { combination_list },
                        )
                        &&& combination_list@.no_duplicates()
                        &&& forall|kind: ComplexResourceType|
                            combination_list@.contains(kind) <==> combinator_recipes(
                                *combinator,
                            ).contains(kind)
                    },
                    ExplorerToPlanet::GenerateResourceRequest { resource: kind, .. } => {
                        let succeeds = before.can_spend() && generator_recipes(
                            *generator,
                        ).contains(kind);
                        &&& after == if succeeds {
                            before.spend()
                        } else {
                            before
                        }
                        &&& reply matches Some(
                            PlanetToExplorer::GenerateResourceResponse { resource },
                        )
                        &&& resource is Some <==> succeeds
                        &&& resource matches Some(basic) ==> basic_resource_type(basic) == kind
                    },
                    ExplorerToPlanet::CombineResourceRequest { msg: request, .. } => {
                        let succeeds = before.can_spend() && combinator_recipes(
                            *combinator,
                        ).contains(requested_type(request));
                        &&& after == if succeeds {
                            before.spend()
                        } else {
                            before
                        }
                        &&& reply matches Some(
                            PlanetToExplorer::CombineResourceResponse { complex_response },
                        )
                        &&& complex_response is Ok <==> succeeds
                        &&& complex_response matches Ok(complex) ==> complex_resource_type(complex)
                            == requested_type(request)
                        &&& complex_response matches Err(failure) ==> {
                            &&& (failure.1, failure.2) == request_inputs(request)
                            &&& failure.0@ == no_cell_reason() <==> before.pool.top_charged()
                                is None
                        }
                    },
                }
                &&& before.in_sync() ==> after.in_sync()
            }),
    {
        proof {
            lemma_acquire(self.pool@);
            lemma_capacity(self.pool@);
            lemma_count_bound(cell_charges(*state));
            let before = World { pool: old(self)@, planet: model(*old(state)) };
            if before.in_sync() {
                lemma_spend_keeps_in_sync(before);
            }
        }
        match msg {
            ExplorerToPlanet::AvailableEnergyCellRequest { explorer_id: _ } => {
                Some(
                    PlanetToExplorer::AvailableEnergyCellResponse {
                        available_cells: count_charged_cells(state),
                    },
                )
            },
            ExplorerToPlanet::SupportedResourceRequest { explorer_id: _ } => {
                Some(
                    PlanetToExplorer::SupportedResourceResponse {
                        resource_list: basic_recipes(generator),
                    },
                )
            },
            ExplorerToPlanet::SupportedCombinationRequest { explorer_id: _ } => {
                Some(
                    PlanetToExplorer::SupportedCombinationResponse {
                        combination_list: complex_recipes(combinator),
                    },
                )
            },
            ExplorerToPlanet::GenerateResourceRequest { explorer_id: _, resource } => {
                let mut produced = None;
                if let Some(index) = get_charged_cell_index(&mut self.pool) {
                    proof {
                        lemma_release(self.pool@, index);
                        lemma_put_back(old(self)@);
                    }
                    let cell = state.cell_mut(index as usize);
                    match generate_resource(generator, resource, cell) {
                        Ok(basic) => {
                            push_free_cell(&mut self.pool, index);
                            produced = Some(basic);
                        },
                        Err(_) => {
                            push_charged_cell(&mut self.pool, index);
                        },
                    }
                }
                Some(PlanetToExplorer::GenerateResourceResponse { resource: produced })
            },
            ExplorerToPlanet::CombineResourceRequest { explorer_id: _, msg: request } => {
                if let Some(index) = get_charged_cell_index(&mut self.pool) {
                    proof {
                        lemma_release(self.pool@, index);
                        lemma_put_back(old(self)@);
                    }
                    let cell = state.cell_mut(index as usize);
                    let complex_response = combinator.try_make(request, cell);
                    if complex_response.is_ok() {
                        push_free_cell(&mut self.pool, index);
                    } else {
                        push_charged_cell(&mut self.pool, index);
                    }
                    Some(PlanetToExplorer::CombineResourceResponse { complex_response })
                } else {
                    let inputs = take_inputs(request);
                    Some(
                        PlanetToExplorer::CombineResourceResponse {
                            complex_response: Err(
                                ("no available cell".to_owned(), inputs.0, inputs.1),
                            ),
                        },
                    )
                }
            },
        }
    }

    /// Handles an asteroid: answers whether the planet has a rocket to meet
    /// it with, and hands the rocket out.
    ///
    /// A planet whose type allows no rocket has none. Else a rocket that
    /// stands ready is taken. Else one is built from the cell on top of the
    /// charged stack, if there is such a cell and it does hold a charge; the
    /// cell's energy is then spent and the cell goes to the free stack. Where
    /// nothing is built, pool and planet are as before.
    pub fn handle_asteroid(
        &mut self,
        state: &mut PlanetState,
        _generator: &Generator,
        _combinator: &Combinator,
    ) -> (rocket: Option<Rocket>)
        requires
            old(self)@.wf(),
            cell_charges(*old(state)).len() == N_CELLS,
        ensures
            final(self)@.wf(),
            ({
                let before = World { pool: old(self)@, planet: model(*old(state)) };
                let after = World { pool: final(self)@, planet: model(*final(state)) };
                &&& rocket is Some <==> before.defended()
                &&& after == before.defend()
                &&& before.in_sync() ==> after.in_sync()
            }),
    {
        proof {
            lemma_acquire(self.pool@);
            lemma_capacity(self.pool@);
            let before = World { pool: old(self)@, planet: model(*old(state)) };
            if before.in_sync() {
                lemma_spend_keeps_in_sync(before);
            }
        }
        if !state.can_have_rocket() {
            None
        } else if state.has_rocket() {
            state.take_rocket()
        } else if let Some(index) = get_charged_cell_index(&mut self.pool) {
            proof {
                lemma_release(self.pool@, index);
                lemma_put_back(old(self)@);
            }
            match state.build_rocket(index as usize) {
                Ok(_) => {
                    push_free_cell(&mut self.pool, index);
                    state.take_rocket()
                },
                Err(_) => {
                    push_charged_cell(&mut self.pool, index);
                    None
                },
            }
        } else {
            None
        }
    }
}

/// The basic resources that this planet makes: all four kinds.
pub fn generation_rules() -> (rules: Vec<BasicResourceType>)
    ensures
        rules@ == seq![
            BasicResourceType::Carbon,
            BasicResourceType::Hydrogen,
            BasicResourceType::Oxygen,
            BasicResourceType::Silicon,
        ],
{
    let mut rules: Vec<BasicResourceType> = Vec::new();
    rules.push(BasicResourceType::Carbon);
    rules.push(BasicResourceType::Hydrogen);
    rules.push(BasicResourceType::Oxygen);
    rules.push(BasicResourceType::Silicon);
    rules
}

/// The complex resources that this planet makes: none.
pub fn combination_rules() -> (rules: Vec<ComplexResourceType>)
    ensures
        rules@.len() == 0,
{
    Vec::new()
}

/// While the books agree with the planet, the charged stack lists as many
/// cells as the planet has charged: an explorer that asks for the number of
/// charged cells is told how often a request of its can take one.
pub proof fn lemma_count_matches_books(world: World)
    requires
        world.in_sync(),
    ensures
        count_charged(world.planet.cells) == world.pool.charged.len(),
{
    let cells = world.planet.cells;
    let pool = world.pool;
    let listed = pool.charged.map_values(|index: u32| index as int);
    assert(listed.no_duplicates());
    listed.unique_seq_to_set();
    assert forall|i: int| charged_indices(cells).contains(i) implies listed.to_set().contains(
        i,
    ) by {
        let index = i as u32;
        if !pool.charged.contains(index) {
            if pool.free.contains(index) {
                let at = choose|at: int| 0 <= at < pool.free.len() && pool.free[at] == index;
                assert(!cells[pool.free[at] as int]);
            } else {
                lemma_room_for_held(pool, index);
            }
        }
        let at = choose|at: int| 0 <= at < pool.charged.len() && pool.charged[at] == index;
        assert(listed[at] == i);
    }
    assert forall|i: int| listed.to_set().contains(i) implies charged_indices(cells).contains(
        i,
    ) by {
        let at = choose|at: int| 0 <= at < listed.len() && listed[at] == i;
        assert(cells[pool.charged[at] as int]);
    }
    assert(listed.to_set() =~= charged_indices(cells));
    lemma_count_indices(cells);
}

/// Round trip of a charge: the cell that a sunray has charged is on top of
/// the charged stack and does hold a charge, so that the next request spends
/// its energy if the recipe is there; the cell is then without charge and on
/// top of the free stack again. If the recipe is not there, nothing is spent
/// and the cell stays on the charged stack.
pub proof fn lemma_fresh_cell_round_trip(world: World)
    requires
        world.in_sync(),
        world.pool.top_free() is Some,
    ensures
        ({
            let cell = world.pool.top_free()->0;
            let fresh = world.absorb();
            &&& fresh.in_sync()
            &&& fresh.can_spend()
            &&& fresh.pool.top_charged() == Some(cell)
            &&& fresh.pool.charged.contains(cell)
            &&& !fresh.pool.free.contains(cell)
            &&& fresh.spend().pool.top_free() == Some(cell)
            &&& fresh.spend().pool.free.contains(cell)
            &&& !fresh.spend().pool.charged.contains(cell)
            &&& !fresh.spend().planet.cells[cell as int]
            &&& fresh.spend().pool == world.pool
        }),
{
    let cell = world.pool.top_free()->0;
    let fresh = world.absorb();
    lemma_absorb_keeps_in_sync(world);
    lemma_spend_keeps_in_sync(fresh);
    lemma_acquire(world.pool);
    lemma_release(world.pool.acquire_free(), cell);
    lemma_acquire(fresh.pool);
    lemma_release(fresh.pool.acquire_charged(), cell);
    lemma_put_back(world.pool);
    lemma_capacity(fresh.pool);
    lemma_capacity(fresh.spend().pool);
    assert(fresh.pool.charged.drop_last() =~= world.pool.charged);
}

/// A cell that is taken from the charged stack of a sound pool and put back
/// leaves the pool as it was.
pub proof fn lemma_put_back(pool: PoolState)
    requires
        pool.wf(),
    ensures
        pool.top_charged() matches Some(index) ==> pool.acquire_charged().release_charged(index)
            == pool,
        pool.top_free() matches Some(index) ==> pool.acquire_free().release_free(index) == pool,
{
    lemma_capacity(pool);
    if pool.charged.len() > 0 {
        assert(pool.charged.drop_last().push(pool.charged.last()) =~= pool.charged);
    }
    if pool.free.len() > 0 {
        assert(pool.free.drop_last().push(pool.free.last()) =~= pool.free);
    }
}

/// Spending a cell's energy leaves books that agree with the planet in
/// agreement with it.
pub proof fn lemma_spend_keeps_in_sync(world: World)
    requires
        world.in_sync(),
    ensures
        world.spend().in_sync(),
        world.launch().in_sync(),
        world.defend().in_sync(),
{
    if let Some(index) = world.pool.top_charged() {
        let taken = world.pool.acquire_charged();
        lemma_acquire(world.pool);
        lemma_release(taken, index);
        let after = world.spend();
        assert forall|i: int| 0 <= i < after.pool.charged.len() implies after.planet.cells[after.pool.charged[i] as int] by {
            assert(after.pool.charged[i] == world.pool.charged[i]);
        }
        assert forall|i: int| 0 <= i < after.pool.free.len() implies !after.planet.cells[after.pool.free[i] as int] by {
            if i < world.pool.free.len() {
                assert(after.pool.free[i] == world.pool.free[i]);
            }
        }
    }
}

/// A sunray leaves books that agree with the planet in agreement with it.
pub proof fn lemma_absorb_keeps_in_sync(world: World)
    requires
        world.in_sync(),
    ensures
        world.absorb().in_sync(),
{
    if let Some(index) = world.pool.top_free() {
        let taken = world.pool.acquire_free();
        lemma_acquire(world.pool);
        lemma_release(taken, index);
        let after = world.absorb();
        assert forall|i: int| 0 <= i < after.pool.free.len() implies !after.planet.cells[after.pool.free[i] as int] by {
            assert(after.pool.free[i] == world.pool.free[i]);
        }
        assert forall|i: int| 0 <= i < after.pool.charged.len() implies after.planet.cells[after.pool.charged[i] as int] by {
            if i < world.pool.charged.len() {
                assert(after.pool.charged[i] == world.pool.charged[i]);
            }
        }
    }
}

} // verus!
