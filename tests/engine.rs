use continuous_life::{
    collect_neighbor_terms, filled_grid, gray_hex, tabulate_grid, GameOfLife, GameOfLifeInput,
    GameOfLifeMessage, Reaction, StepError,
};

type Rule = Box<dyn Fn(f64, f64, Vec<(f64, f64)>) -> f64>;
type Sampler = Box<dyn Fn(usize, usize) -> f64>;
type Input = GameOfLifeInput<f64, Rule, Sampler>;

const MOORE: [((i64, i64), f64); 8] = [
    ((-1, -1), 1.0),
    ((-1, 0), 1.0),
    ((-1, 1), 1.0),
    ((0, -1), 1.0),
    ((0, 1), 1.0),
    ((1, -1), 1.0),
    ((1, 0), 1.0),
    ((1, 1), 1.0),
];

/// Adds the time-scaled weighted neighbour sum to the cell.
fn linear_rule() -> Rule {
    Box::new(|ts: f64, cell: f64, terms: Vec<(f64, f64)>| {
        let sum: f64 = terms.iter().map(|(w, v)| w * v).sum();
        cell + ts * sum
    })
}

fn quiet() -> Reaction {
    Reaction { emit: false, schedule_step: false }
}

fn shown() -> Reaction {
    Reaction { emit: true, schedule_step: false }
}

#[test]
fn uniform_fill_three_by_two() {
    let mut g: GameOfLife<f64, Rule> = GameOfLife::new(1.0);
    let r = g.handle_input(Input::InitVal(3, 2, 0.5));
    assert_eq!(r, shown());
    let (b0, b1) = g.buffers();
    assert_eq!(*b0, vec![vec![0.5; 3]; 2]);
    assert_eq!(*b1, vec![vec![0.5; 3]; 2]);
    assert!(g.is_initialized());
    assert!(!g.is_odd());
}

#[test]
fn step_before_init_changes_nothing() {
    let mut g: GameOfLife<f64, Rule> = GameOfLife::new(1.0);
    g.handle_input(Input::SetKernel(MOORE.to_vec()));
    g.handle_input(Input::SetFunction(linear_rule()));
    let r = g.handle_input(Input::Step);
    assert_eq!(r, quiet());
    let (b0, b1) = g.buffers();
    assert!(b0.is_empty());
    assert!(b1.is_empty());
    assert!(!g.is_odd());
    assert_eq!(g.step(), Err(StepError::NotInitialized));
}

#[test]
fn step_without_kernel_or_rule_is_refused() {
    let mut g: GameOfLife<f64, Rule> = GameOfLife::new(1.0);
    g.val_init(2, 2, 1.0);
    assert_eq!(g.step(), Err(StepError::MissingParameters));
    g.set_kernel(MOORE.to_vec());
    assert_eq!(g.step(), Err(StepError::MissingParameters));
    assert!(!g.is_odd());
    g.set_function(linear_rule());
    assert_eq!(g.step(), Ok(()));
    assert!(g.is_odd());
}

#[test]
fn five_by_five_corners_see_three_neighbours() {
    let mut g: GameOfLife<f64, Rule> = GameOfLife::new(1.0);
    g.handle_input(Input::SetKernel(MOORE.to_vec()));
    g.handle_input(Input::SetTimeScale(0.1));
    g.handle_input(Input::SetFunction(linear_rule()));
    g.handle_input(Input::InitVal(5, 5, 1.0));
    let r = g.handle_input(Input::Step);
    assert_eq!(r, shown());
    assert!(g.is_odd());
    let cur = g.current_grid();
    assert_eq!(cur.len(), 5);
    for row in cur.iter() {
        assert_eq!(row.len(), 5);
    }
    let close = |a: f64, b: f64| (a - b).abs() < 1e-12;
    for (x, y) in [(0, 0), (4, 0), (0, 4), (4, 4)] {
        assert!(close(cur[y][x], 1.3), "corner {x},{y}: {}", cur[y][x]);
    }
    assert!(close(cur[0][2], 1.5));
    assert!(close(cur[2][0], 1.5));
    for y in 1..4 {
        for x in 1..4 {
            assert!(close(cur[y][x], 1.8));
        }
    }
    // The old current grid is now the one the next step writes over.
    let (b0, _) = g.buffers();
    assert_eq!(*b0, vec![vec![1.0; 5]; 5]);
}

#[test]
fn corner_terms_are_the_in_bounds_offsets() {
    let grid = filled_grid(5, 5, 1.0);
    let kernel = MOORE.to_vec();
    let corner = collect_neighbor_terms(&kernel, &grid, 5, 5, 0, 0);
    assert_eq!(corner, vec![(1.0, 1.0); 3]);
    let inner = collect_neighbor_terms(&kernel, &grid, 5, 5, 2, 2);
    assert_eq!(inner.len(), 8);
    let sum: f64 = corner.iter().map(|(w, v)| w * v).sum();
    assert_eq!(sum, 3.0);
}

#[test]
fn single_cell_gets_no_terms() {
    let grid = filled_grid(1, 1, 0.7);
    let kernel = MOORE.to_vec();
    let terms = collect_neighbor_terms(&kernel, &grid, 1, 1, 0, 0);
    assert!(terms.is_empty());
    let with_self = vec![((1, 0), 2.0), ((0, 0), 3.0)];
    assert_eq!(collect_neighbor_terms(&with_self, &grid, 1, 1, 0, 0), vec![(3.0, 0.7)]);
}

#[test]
fn terms_keep_kernel_order_and_weights() {
    let grid = tabulate_grid(3, 2, &|x: usize, y: usize| (10 * y + x) as f64);
    let kernel = vec![((1, 0), 0.5), ((-1, 0), 0.25), ((0, 1), 2.0), ((0, -1), 4.0), ((1, 0), 0.5)];
    let terms = collect_neighbor_terms(&kernel, &grid, 3, 2, 1, 0);
    assert_eq!(terms, vec![(0.5, 2.0), (0.25, 0.0), (2.0, 11.0), (0.5, 2.0)]);
}

#[test]
fn steps_alternate_buffers() {
    let mut g: GameOfLife<f64, Rule> = GameOfLife::new(1.0);
    g.set_kernel(vec![((1, 0), 1.0)]);
    g.set_function(linear_rule());
    g.val_init(3, 1, 1.0);
    assert_eq!(g.step(), Ok(()));
    assert!(g.is_odd());
    assert_eq!(*g.current_grid(), vec![vec![2.0, 2.0, 1.0]]);
    assert_eq!(g.step(), Ok(()));
    assert!(!g.is_odd());
    assert_eq!(*g.current_grid(), vec![vec![4.0, 3.0, 1.0]]);
    let (b0, b1) = g.buffers();
    assert_eq!(*b0, vec![vec![4.0, 3.0, 1.0]]);
    assert_eq!(*b1, vec![vec![2.0, 2.0, 1.0]]);
}

#[test]
fn noise_init_samples_first_buffer() {
    let mut g: GameOfLife<f64, Rule> = GameOfLife::new(1.0);
    let sampler: Sampler = Box::new(|x: usize, y: usize| (x + 2 * y) as f64 / 10.0);
    let r = g.handle_input(Input::InitNoise(2, 3, sampler, 0.0));
    assert_eq!(r, shown());
    let (b0, b1) = g.buffers();
    assert_eq!(*b0, vec![vec![0.0, 0.1], vec![0.2, 0.3], vec![0.4, 0.5]]);
    assert_eq!(*b1, vec![vec![0.0; 2]; 3]);
    assert!(!g.is_odd());
}

#[test]
fn reinit_resets_parity_and_shape() {
    let mut g: GameOfLife<f64, Rule> = GameOfLife::new(1.0);
    g.set_kernel(MOORE.to_vec());
    g.set_function(linear_rule());
    g.val_init(4, 4, 0.0);
    assert_eq!(g.step(), Ok(()));
    assert!(g.is_odd());
    g.val_init(2, 3, 0.25);
    assert!(!g.is_odd());
    let (b0, b1) = g.buffers();
    assert_eq!(*b0, vec![vec![0.25; 2]; 3]);
    assert_eq!(*b1, vec![vec![0.25; 2]; 3]);
}

#[test]
fn settings_are_silent() {
    let mut g: GameOfLife<f64, Rule> = GameOfLife::new(1.0);
    assert_eq!(g.handle_input(Input::SetKernel(MOORE.to_vec())), quiet());
    assert_eq!(g.handle_input(Input::SetTimeScale(0.5)), quiet());
    assert_eq!(g.handle_input(Input::SetFunction(linear_rule())), quiet());
    assert!(!g.is_initialized());
}

#[test]
fn toggle_play_schedules_only_when_starting() {
    let mut g: GameOfLife<f64, Rule> = GameOfLife::new(1.0);
    assert!(!g.is_playing());
    let r = g.handle_input(Input::TogglePlay);
    assert_eq!(r, Reaction { emit: false, schedule_step: true });
    assert!(g.is_playing());
    let r = g.toggle_play();
    assert_eq!(r, quiet());
    assert!(!g.is_playing());
}

#[test]
fn scheduled_step_reschedules_while_playing() {
    let mut g: GameOfLife<f64, Rule> = GameOfLife::new(0.1);
    g.set_kernel(MOORE.to_vec());
    g.set_function(linear_rule());
    g.val_init(3, 3, 1.0);
    g.toggle_play();
    let r = g.update(GameOfLifeMessage::Step);
    assert_eq!(r, Reaction { emit: true, schedule_step: true });
    assert!(g.is_odd());
    // Pausing does not cancel the step already scheduled: it still runs once.
    g.toggle_play();
    let r = g.update(GameOfLifeMessage::Step);
    assert_eq!(r, Reaction { emit: true, schedule_step: false });
    assert!(!g.is_odd());
}

#[test]
fn scheduled_step_before_init_is_not_shown() {
    let mut g: GameOfLife<f64, Rule> = GameOfLife::new(1.0);
    g.toggle_play();
    let r = g.update(GameOfLifeMessage::Step);
    assert_eq!(r, Reaction { emit: false, schedule_step: true });
}

#[test]
fn zero_sized_grids_step_without_panicking() {
    let mut g: GameOfLife<f64, Rule> = GameOfLife::new(1.0);
    g.set_kernel(MOORE.to_vec());
    g.set_function(linear_rule());
    g.val_init(0, 0, 1.0);
    assert_eq!(g.step(), Ok(()));
    assert!(g.current_grid().is_empty());
    g.val_init(0, 2, 1.0);
    assert_eq!(g.step(), Ok(()));
    assert_eq!(*g.current_grid(), vec![Vec::<f64>::new(); 2]);
}

#[test]
fn gray_levels_in_hex() {
    assert_eq!(gray_hex(0), "000000");
    assert_eq!(gray_hex(255), "ffffff");
    assert_eq!(gray_hex(26), "1a1a1a");
    assert_eq!(gray_hex(127), "7f7f7f");
}
