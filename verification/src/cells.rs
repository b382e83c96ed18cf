//! Reading the planet's cells, and making a basic resource from one of them.

use vstd::prelude::*;
use common_game::components::energy_cell::EnergyCell;
use common_game::components::planet::PlanetState;
use common_game::components::resource::{BasicResource, Generator};
use crate::game::{
    basic_resource_type, cell_charged, cell_charges, count_charged, generator_recipes,
    make_carbon, make_hydrogen, make_oxygen, make_silicon,
};
use crate::messages::BasicResourceType;
use crate::N_CELLS;

verus! {

/// Counting up to a cell and then the cell itself is counting one cell
/// further.
proof fn lemma_count_step(cells: Seq<bool>, i: int)
    requires
        0 <= i < cells.len(),
    ensures
        count_charged(cells.take(i + 1)) == count_charged(cells.take(i)) + if cells[i] {
            1nat
        } else {
            0nat
        },
        count_charged(cells.take(i)) <= i,
    decreases i,
{
    assert(cells.take(i + 1).drop_last() =~= cells.take(i));
    if i > 0 {
        lemma_count_step(cells, i - 1);
    }
}

/// The indices of the charged cells.
pub open spec fn charged_indices(cells: Seq<bool>) -> Set<int> {
    Set::new(|i: int| 0 <= i < cells.len() && cells[i])
}

/// Counting the charged cells is counting their indices.
pub proof fn lemma_count_indices(cells: Seq<bool>)
    ensures
        charged_indices(cells).finite(),
        count_charged(cells) == charged_indices(cells).len(),
    decreases cells.len(),
{
    if cells.len() == 0 {
        assert(charged_indices(cells) =~= Set::<int>::empty());
    } else {
        let rest = cells.drop_last();
        let last = cells.len() - 1;
        lemma_count_indices(rest);
        if cells.last() {
            assert(charged_indices(cells) =~= charged_indices(rest).insert(last));
        } else {
            assert(charged_indices(cells) =~= charged_indices(rest));
        }
    }
}

/// No more cells are charged than there are.
pub proof fn lemma_count_bound(cells: Seq<bool>)
    ensures
        count_charged(cells) <= cells.len(),
    decreases cells.len(),
{
    if cells.len() > 0 {
        lemma_count_bound(cells.drop_last());
    }
}

/// The number of cells of the planet that are charged. The planet is only
/// read.
pub fn count_charged_cells(state: &PlanetState) -> (count: u32)
    requires
        cell_charges(*state).len() == N_CELLS,
    ensures
        count == count_charged(cell_charges(*state)),
{
    let mut count: u32 = 0;
    let mut i: usize = 0;
    while i < N_CELLS
        invariant
            i <= N_CELLS,
            cell_charges(*state).len() == N_CELLS,
            count == count_charged(cell_charges(*state).take(i as int)),
            count <= i,
        decreases N_CELLS - i,
    {
        proof {
            lemma_count_step(cell_charges(*state), i as int);
        }
        if state.cell(i).is_charged() {
            count = count + 1;
        }
        i = i + 1;
    }
    assert(cell_charges(*state).take(N_CELLS as int) =~= cell_charges(*state));
    count
}

/// The first cell of the planet whose charge is as asked for, if there is
/// one. The planet is only read.
pub fn first_cell(state: &PlanetState, charged: bool) -> (found: Option<usize>)
    requires
        cell_charges(*state).len() == N_CELLS,
    ensures
        found matches Some(index) ==> index < N_CELLS && cell_charges(*state).index_of_first(
            charged,
        ) == Some(index as int),
        found is None ==> cell_charges(*state).index_of_first(charged) is None,
{
    let mut i: usize = 0;
    while i < N_CELLS
        invariant
            i <= N_CELLS,
            cell_charges(*state).len() == N_CELLS,
            forall|j: int| 0 <= j < i ==> cell_charges(*state)[j] != charged,
        decreases N_CELLS - i,
    {
        if state.cell(i).is_charged() == charged {
            proof {
                assert(cell_charges(*state)[i as int] == charged);
                cell_charges(*state).index_of_first_ensures(charged);
            }
            return Some(i);
        }
        i = i + 1;
    }
    proof {
        cell_charges(*state).index_of_first_ensures(charged);
    }
    None
}

/// Makes a basic resource of the given kind from the cell. It succeeds
/// exactly when the generator has a recipe for the kind and the cell is
/// charged; the cell is then discharged. When it fails, the cell is as
/// before.
pub fn generate_resource(generator: &Generator, kind: BasicResourceType, cell: &mut EnergyCell) -> (made:
    Result<BasicResource, String>)
    ensures
        made is Ok <==> generator_recipes(*generator).contains(kind) && cell_charged(*old(cell)),
        made matches Ok(basic) ==> basic_resource_type(basic) == kind,
        cell_charged(*final(cell)) == (cell_charged(*old(cell)) && made is Err),
{
    match kind {
        BasicResourceType::Carbon => make_carbon(generator, cell),
        BasicResourceType::Silicon => make_silicon(generator, cell),
        BasicResourceType::Oxygen => make_oxygen(generator, cell),
        BasicResourceType::Hydrogen => make_hydrogen(generator, cell),
    }
}

} // verus!
