use one_million_crabs::stacks::{
    get_charged_cell_index, get_free_cell_index, initialize_free_cell_stack,
    peek_charged_cell_index, push_charged_cell, push_free_cell, CellPool,
};
use one_million_crabs::N_CELLS;

/// Every cell of the planet is on exactly one of the stacks or in `held`.
fn every_cell_in_one_place(pool: &CellPool, held: &[u32]) -> bool {
    (0..N_CELLS as u32).all(|cell| {
        let on_free = pool.free_cells().iter().filter(|&&listed| listed == cell).count();
        let on_charged = pool.charged_cells().iter().filter(|&&listed| listed == cell).count();
        let in_hand = held.iter().filter(|&&kept| kept == cell).count();
        on_free + on_charged + in_hand == 1
    })
}

#[test]
fn new_pool_has_every_cell_free() {
    let pool = CellPool::new();
    assert_eq!(N_CELLS, 5);
    assert_eq!(pool.free_cells(), &vec![4, 3, 2, 1, 0]);
    assert!(pool.charged_cells().is_empty());
    assert!(every_cell_in_one_place(&pool, &[]));
}

#[test]
fn free_cells_come_out_in_increasing_order() {
    let mut pool = CellPool::new();
    for expected in 0..5 {
        assert_eq!(get_free_cell_index(&mut pool), Some(expected));
    }
    assert_eq!(get_free_cell_index(&mut pool), None);
    assert_eq!(get_free_cell_index(&mut pool), None);
    assert!(pool.free_cells().is_empty());
    assert!(pool.charged_cells().is_empty());
}

#[test]
fn no_charged_cell_in_a_new_pool() {
    let mut pool = CellPool::new();
    assert_eq!(peek_charged_cell_index(&pool), None);
    assert_eq!(get_charged_cell_index(&mut pool), None);
    assert_eq!(pool.free_cells(), &vec![4, 3, 2, 1, 0]);
    assert!(pool.charged_cells().is_empty());
}

#[test]
fn initializing_resets_both_stacks() {
    let mut pool = CellPool::new();
    let first = get_free_cell_index(&mut pool).unwrap();
    let second = get_free_cell_index(&mut pool).unwrap();
    push_charged_cell(&mut pool, first);
    push_charged_cell(&mut pool, second);
    assert_eq!(pool.free_cells(), &vec![4, 3, 2]);
    assert_eq!(pool.charged_cells(), &vec![0, 1]);

    initialize_free_cell_stack(&mut pool);
    assert_eq!(pool.free_cells(), &vec![4, 3, 2, 1, 0]);
    assert!(pool.charged_cells().is_empty());
}

#[test]
fn a_full_free_stack_takes_nothing() {
    let mut pool = CellPool::new();
    push_free_cell(&mut pool, 9);
    assert_eq!(pool.free_cells(), &vec![4, 3, 2, 1, 0]);
    assert_eq!(get_free_cell_index(&mut pool), Some(0));
    push_free_cell(&mut pool, 0);
    assert_eq!(pool.free_cells(), &vec![4, 3, 2, 1, 0]);
}

#[test]
fn a_full_charged_stack_takes_nothing() {
    let mut pool = CellPool::new();
    for cell in 0..5 {
        push_charged_cell(&mut pool, cell);
    }
    assert_eq!(pool.charged_cells(), &vec![0, 1, 2, 3, 4]);
    push_charged_cell(&mut pool, 5);
    assert_eq!(pool.charged_cells(), &vec![0, 1, 2, 3, 4]);
    assert_eq!(pool.free_cells(), &vec![4, 3, 2, 1, 0]);
}

#[test]
fn the_free_stack_is_last_in_first_out() {
    let mut pool = CellPool::new();
    let a = get_free_cell_index(&mut pool).unwrap();
    let b = get_free_cell_index(&mut pool).unwrap();
    assert_eq!((a, b), (0, 1));
    push_free_cell(&mut pool, a);
    push_free_cell(&mut pool, b);
    assert_eq!(get_free_cell_index(&mut pool), Some(b));
    assert_eq!(get_free_cell_index(&mut pool), Some(a));
    assert_eq!(pool.free_cells(), &vec![4, 3, 2]);
}

#[test]
fn the_charged_stack_is_last_in_first_out() {
    let mut pool = CellPool::new();
    let a = get_free_cell_index(&mut pool).unwrap();
    let b = get_free_cell_index(&mut pool).unwrap();
    push_charged_cell(&mut pool, a);
    push_charged_cell(&mut pool, b);
    assert_eq!(pool.charged_cells(), &vec![0, 1]);
    assert_eq!(get_charged_cell_index(&mut pool), Some(b));
    assert_eq!(get_charged_cell_index(&mut pool), Some(a));
    assert_eq!(get_charged_cell_index(&mut pool), None);
}

#[test]
fn a_full_stack_breaks_last_in_first_out() {
    let mut pool = CellPool::new();
    push_free_cell(&mut pool, 7);
    push_free_cell(&mut pool, 8);
    assert_eq!(get_free_cell_index(&mut pool), Some(0));
    assert_eq!(get_free_cell_index(&mut pool), Some(1));
}

#[test]
fn peeking_leaves_the_charged_stack_alone() {
    let mut pool = CellPool::new();
    let a = get_free_cell_index(&mut pool).unwrap();
    let b = get_free_cell_index(&mut pool).unwrap();
    push_charged_cell(&mut pool, a);
    push_charged_cell(&mut pool, b);
    assert_eq!(peek_charged_cell_index(&pool), Some(b));
    assert_eq!(peek_charged_cell_index(&pool), Some(b));
    assert_eq!(pool.charged_cells(), &vec![a, b]);
    assert_eq!(get_charged_cell_index(&mut pool), Some(b));
    assert_eq!(peek_charged_cell_index(&pool), Some(a));
}

#[test]
fn no_cell_is_lost_or_doubled() {
    let mut pool = CellPool::new();
    let mut held: Vec<u32> = Vec::new();
    assert!(every_cell_in_one_place(&pool, &held));

    held.push(get_free_cell_index(&mut pool).unwrap());
    held.push(get_free_cell_index(&mut pool).unwrap());
    held.push(get_free_cell_index(&mut pool).unwrap());
    assert!(every_cell_in_one_place(&pool, &held));
    assert!(pool.free_cells().len() + pool.charged_cells().len() <= N_CELLS);

    push_charged_cell(&mut pool, held.pop().unwrap());
    push_charged_cell(&mut pool, held.pop().unwrap());
    push_free_cell(&mut pool, held.pop().unwrap());
    assert!(every_cell_in_one_place(&pool, &held));
    assert_eq!(pool.free_cells(), &vec![4, 3, 0]);
    assert_eq!(pool.charged_cells(), &vec![2, 1]);
    assert_eq!(pool.free_cells().len() + pool.charged_cells().len(), N_CELLS);

    held.push(get_charged_cell_index(&mut pool).unwrap());
    assert_eq!(held, vec![1]);
    assert!(every_cell_in_one_place(&pool, &held));
    push_free_cell(&mut pool, held.pop().unwrap());
    assert!(every_cell_in_one_place(&pool, &held));
    assert_eq!(pool.free_cells(), &vec![4, 3, 0, 1]);
    assert_eq!(pool.charged_cells(), &vec![2]);
}
