use vstd::prelude::*;
use crate::grid::{filled, filled_grid, grid_view, has_shape, tabulate_grid};
use crate::kernel::{collect_neighbor_terms, neighbor_terms, KernelTerm};

verus! {

/// The rule accepts every (time scale, cell, neighbour terms) it can be given.
pub open spec fn rule_total<T, F: Fn(T, T, Vec<(T, T)>) -> T>(rule: F) -> bool {
    forall|time_scale: T, cell: T, terms: Vec<(T, T)>| #[trigger]
        rule.requires((time_scale, cell, terms))
}

/// `next` is a value that `rule` returns for a cell holding `cell` whose
/// in-bounds neighbour terms are `terms`.
pub open spec fn updates_to<T, F: Fn(T, T, Vec<(T, T)>) -> T>(
    rule: F,
    time_scale: T,
    cell: T,
    terms: Seq<(T, T)>,
    next: T,
) -> bool {
    exists|v: Vec<(T, T)>| v@ == terms && #[trigger] rule.ensures((time_scale, cell, v), next)
}

/// Every cell of `next` is the rule applied to the same cell of `current` and
/// to that cell's neighbour terms in `current` (a `width` by `height` grid).
pub open spec fn evolved<T, F: Fn(T, T, Vec<(T, T)>) -> T>(
    rule: F,
    time_scale: T,
    kernel: Seq<KernelTerm<T>>,
    current: Seq<Seq<T>>,
    next: Seq<Seq<T>>,
    width: int,
    height: int,
) -> bool {
    forall|x: int, y: int|
        0 <= x < width && 0 <= y < next.len() ==> #[trigger] updates_to(
            rule,
            time_scale,
            current[y][x],
            neighbor_terms(kernel, current, width, height, x, y),
            next[y][x],
        )
}

/// Computes one generation: for each cell, the rule applied to the cell and to
/// its in-bounds neighbour terms, all read from `current`.
pub fn next_generation<T: Copy, F: Fn(T, T, Vec<(T, T)>) -> T>(
    rule: &F,
    time_scale: T,
    kernel: &Vec<KernelTerm<T>>,
    current: &Vec<Vec<T>>,
    width: usize,
    height: usize,
) -> (r: Vec<Vec<T>>)
    requires
        rule_total(*rule),
        has_shape(grid_view(*current), width as int, height as int),
    ensures
        has_shape(grid_view(r), width as int, height as int),
        evolved(*rule, time_scale, kernel@, grid_view(*current), grid_view(r), width as int, height as int),
{
    let ghost cur = grid_view(*current);
    let mut rows: Vec<Vec<T>> = Vec::new();
    let mut y: usize = 0;
    while y < height
        invariant
            y <= height,
            rule_total(*rule),
            cur == grid_view(*current),
            has_shape(cur, width as int, height as int),
            has_shape(grid_view(rows), width as int, y as int),
            evolved(*rule, time_scale, kernel@, cur, grid_view(rows), width as int, height as int),
        decreases height - y,
    {
        let src_row = &current[y];
        assert(src_row@ == cur[y as int]);
        let mut row: Vec<T> = Vec::new();
        let mut x: usize = 0;
        while x < width
            invariant
                x <= width,
                y < height,
                rule_total(*rule),
                cur == grid_view(*current),
                has_shape(cur, width as int, height as int),
                src_row@ == cur[y as int],
                has_shape(grid_view(rows), width as int, y as int),
                evolved(*rule, time_scale, kernel@, cur, grid_view(rows), width as int, height as int),
                row@.len() == x,
                forall|i: int|
                    0 <= i < x ==> updates_to(
                        *rule,
                        time_scale,
                        cur[y as int][i],
                        neighbor_terms(kernel@, cur, width as int, height as int, i, y as int),
                        #[trigger] row@[i],
                    ),
            decreases width - x,
        {
            let cell = src_row[x];
            let terms = collect_neighbor_terms(kernel, current, width, height, x, y);
            let ghost given = terms;
            assert(rule.requires((time_scale, cell, terms)));
            let value = rule(time_scale, cell, terms);
            assert(updates_to(*rule, time_scale, cell, given@, value));
            row.push(value);
            x = x + 1;
        }
        let ghost before = grid_view(rows);
        rows.push(row);
        assert(grid_view(rows) =~= before.push(row@));
        assert forall|i: int, j: int| 0 <= i < width && 0 <= j < y + 1 implies updates_to(
            *rule,
            time_scale,
            cur[j][i],
            neighbor_terms(kernel@, cur, width as int, height as int, i, j),
            #[trigger] grid_view(rows)[j][i],
        ) by {
            let terms = neighbor_terms(kernel@, cur, width as int, height as int, i, j);
            if j < y {
                assert(updates_to(*rule, time_scale, cur[j][i], terms, before[j][i]));
                assert(grid_view(rows)[j][i] == before[j][i]);
            } else {
                assert(updates_to(*rule, time_scale, cur[j][i], terms, row@[i]));
                assert(grid_view(rows)[j][i] == row@[i]);
            }
        }
        y = y + 1;
    }
    rows
}

/// The message an engine sends itself when a scheduled step falls due.
pub enum GameOfLifeMessage {
    Step,
}

/// Why a step did not run. Either way the engine is left as it was.
#[derive(Debug, Clone, Copy, PartialEq, Eq, Structural)]
pub enum StepError {
    /// No grid has been initialized yet.
    NotInitialized,
    /// The kernel or the evolution rule has not been set.
    MissingParameters,
}

/// What the driver of an engine must do after handing it a command.
#[derive(Debug, Clone, Copy, PartialEq, Eq, Structural)]
pub struct Reaction {
    /// Send the current grid to the connected observer, if any.
    pub emit: bool,
    /// Request one delayed `GameOfLifeMessage::Step`.
    pub schedule_step: bool,
}

/// The commands an engine accepts. `F` is the evolution rule, called with
/// (time scale, cell, in-bounds (weight, neighbour) terms); `G` samples the
/// initial value of cell `(x, y)` for `InitNoise`, whose last field fills the
/// second buffer.
pub enum GameOfLifeInput<T, F, G> {
    SetFunction(F),
    SetKernel(Vec<KernelTerm<T>>),
    SetTimeScale(T),
    TogglePlay,
    InitVal(usize, usize, T),
    InitNoise(usize, usize, G, T),
    Step,
}

/// A double-buffered grid engine. Buffer `odd as usize` is the current grid;
/// a step writes the other one and then flips `odd`.
pub struct GameOfLife<T, F> {
    step_function: Option<F>,
    kernel: Option<Vec<KernelTerm<T>>>,
    time_scale: T,
    playing: bool,
    initialized: bool,
    cells0: Vec<Vec<T>>,
    cells1: Vec<Vec<T>>,
    odd: bool,
    width: usize,
    height: usize,
}

impl<T: Copy, F: Fn(T, T, Vec<(T, T)>) -> T> GameOfLife<T, F> {
    /// Buffer `i` (0 or 1).
    pub closed spec fn buffer(&self, i: int) -> Seq<Seq<T>> {
        if i == 0 {
            grid_view(self.cells0)
        } else {
            grid_view(self.cells1)
        }
    }

    /// Which buffer is current: 1 when the parity is odd, else 0.
    pub closed spec fn parity(&self) -> bool {
        self.odd
    }

    /// The index of the current buffer.
    pub open spec fn current_index(&self) -> int {
        if self.parity() {
            1
        } else {
            0
        }
    }

    /// The grid that the next step reads, and that observers are shown.
    pub open spec fn current(&self) -> Seq<Seq<T>> {
        self.buffer(self.current_index())
    }

    /// The grid that the next step writes.
    pub open spec fn next(&self) -> Seq<Seq<T>> {
        self.buffer(1 - self.current_index())
    }

    pub closed spec fn width(&self) -> int {
        self.width as int
    }

    pub closed spec fn height(&self) -> int {
        self.height as int
    }

    pub closed spec fn initialized(&self) -> bool {
        self.initialized
    }

    pub closed spec fn playing(&self) -> bool {
        self.playing
    }

    pub closed spec fn kernel(&self) -> Option<Seq<KernelTerm<T>>> {
        match self.kernel {
            Some(k) => Some(k@),
            None => None,
        }
    }

    pub closed spec fn step_function(&self) -> Option<F> {
        self.step_function
    }

    pub closed spec fn time_scale(&self) -> T {
        self.time_scale
    }

    /// Both buffers have the engine's shape, and a stored rule accepts every
    /// input.
    pub closed spec fn wf(&self) -> bool {
        &&& has_shape(grid_view(self.cells0), self.width as int, self.height as int)
        &&& has_shape(grid_view(self.cells1), self.width as int, self.height as int)
        &&& (self.step_function matches Some(f) ==> rule_total(f))
    }

    /// Everything but the two buffers, the shape, the parity and the
    /// initialized flag is the same in `a` and `b`.
    pub open spec fn same_settings(a: Self, b: Self) -> bool {
        &&& a.kernel() == b.kernel()
        &&& a.step_function() == b.step_function()
        &&& a.time_scale() == b.time_scale()
        &&& a.playing() == b.playing()
    }

    /// The grids, shape, parity and initialized flag are the same in `a` and `b`.
    pub open spec fn same_state(a: Self, b: Self) -> bool {
        &&& a.buffer(0) == b.buffer(0)
        &&& a.buffer(1) == b.buffer(1)
        &&& a.parity() == b.parity()
        &&& a.initialized() == b.initialized()
        &&& a.width() == b.width()
        &&& a.height() == b.height()
    }

    /// What a step does: `r` says whether it ran; if it did, the old next
    /// buffer now holds the evolved grid and is current, and the old current
    /// buffer is kept as the next one; if not, nothing changed.
    pub open spec fn step_post(pre: Self, post: Self, r: Result<(), StepError>) -> bool {
        &&& Self::same_settings(pre, post)
        &&& r == (if !pre.initialized() {
            Err(StepError::NotInitialized)
        } else if pre.kernel() is None || pre.step_function() is None {
            Err(StepError::MissingParameters)
        } else {
            Ok(())
        })
        &&& r is Ok ==> {
            &&& post.parity() == !pre.parity()
            &&& post.initialized()
            &&& post.width() == pre.width()
            &&& post.height() == pre.height()
            &&& post.next() == pre.current()
            &&& evolved(
                pre.step_function()->0,
                pre.time_scale(),
                pre.kernel()->0,
                pre.current(),
                post.current(),
                pre.width(),
                pre.height(),
            )
        }
        &&& r is Err ==> Self::same_state(pre, post)
    }

    /// A new engine: not initialized, paused, with no kernel and no rule,
    /// two empty buffers and the given time scale.
    pub fn new(time_scale: T) -> (r: Self)
        ensures
            r.wf(),
            !r.initialized(),
            !r.playing(),
            r.kernel() is None,
            r.step_function() is None,
            r.time_scale() == time_scale,
            r.buffer(0).len() == 0,
            r.buffer(1).len() == 0,
            !r.parity(),
            r.width() == 0,
            r.height() == 0,
    {
        let r = GameOfLife {
            step_function: None,
            kernel: None,
            time_scale,
            playing: false,
            initialized: false,
            cells0: Vec::new(),
            cells1: Vec::new(),
            odd: false,
            width: 0,
            height: 0,
        };
        assert(grid_view(r.cells0) =~= Seq::empty());
        assert(grid_view(r.cells1) =~= Seq::empty());
        r
    }

    /// Replaces the evolution rule.
    pub fn set_function(&mut self, f: F)
        requires
            old(self).wf(),
            rule_total(f),
        ensures
            final(self).wf(),
            final(self).step_function() == Some(f),
            final(self).kernel() == old(self).kernel(),
            final(self).time_scale() == old(self).time_scale(),
            final(self).playing() == old(self).playing(),
            Self::same_state(*old(self), *final(self)),
    {
        self.step_function = Some(f);
    }

    /// Replaces the kernel.
    pub fn set_kernel(&mut self, kernel: Vec<KernelTerm<T>>)
        requires
            old(self).wf(),
        ensures
            final(self).wf(),
            final(self).kernel() == Some(kernel@),
            final(self).step_function() == old(self).step_function(),
            final(self).time_scale() == old(self).time_scale(),
            final(self).playing() == old(self).playing(),
            Self::same_state(*old(self), *final(self)),
    {
        self.kernel = Some(kernel);
    }

    /// Replaces the time scale handed to the rule.
    pub fn set_time_scale(&mut self, time_scale: T)
        requires
            old(self).wf(),
        ensures
            final(self).wf(),
            final(self).time_scale() == time_scale,
            final(self).kernel() == old(self).kernel(),
            final(self).step_function() == old(self).step_function(),
            final(self).playing() == old(self).playing(),
            Self::same_state(*old(self), *final(self)),
    {
        self.time_scale = time_scale;
    }

    /// Fills both buffers with a `height` by `width` grid of `value`, makes
    /// buffer 0 current and marks the engine initialized.
    pub fn val_init(&mut self, width: usize, height: usize, value: T)
        requires
            old(self).wf(),
        ensures
            final(self).wf(),
            Self::same_settings(*old(self), *final(self)),
            final(self).initialized(),
            !final(self).parity(),
            final(self).width() == width,
            final(self).height() == height,
            final(self).buffer(0) == filled(width as int, height as int, value),
            final(self).buffer(1) == filled(width as int, height as int, value),
    {
        self.cells0 = filled_grid(width, height, value);
        self.cells1 = filled_grid(width, height, value);
        self.width = width;
        self.height = height;
        self.odd = false;
        self.initialized = true;
    }

    /// Fills buffer 0 with `sample(x, y)` for each cell and buffer 1 with
    /// `blank`, makes buffer 0 current and marks the engine initialized.
    pub fn noise_init<G: Fn(usize, usize) -> T>(&mut self, width: usize, height: usize, sample: &G, blank: T)
        requires
            old(self).wf(),
            forall|x: usize, y: usize| x < width && y < height ==> sample.requires((x, y)),
        ensures
            final(self).wf(),
            Self::same_settings(*old(self), *final(self)),
            final(self).initialized(),
            !final(self).parity(),
            final(self).width() == width,
            final(self).height() == height,
            has_shape(final(self).buffer(0), width as int, height as int),
            forall|x: usize, y: usize|
                x < width && y < height ==> sample.ensures((x, y), #[trigger] final(self).buffer(0)[y as int][x as int]),
            final(self).buffer(1) == filled(width as int, height as int, blank),
    {
        self.cells0 = tabulate_grid(width, height, sample);
        self.cells1 = filled_grid(width, height, blank);
        self.width = width;
        self.height = height;
        self.odd = false;
        self.initialized = true;
    }

    /// One convolution pass from the current buffer into the other one,
    /// followed by a swap of the two; refused, with nothing changed, before
    /// initialization or while the kernel or the rule is unset.
    pub fn step(&mut self) -> (r: Result<(), StepError>)
        requires
            old(self).wf(),
        ensures
            final(self).wf(),
            Self::step_post(*old(self), *final(self), r),
    {
        if !self.initialized {
            return Err(StepError::NotInitialized);
        }
        let next = match (&self.step_function, &self.kernel) {
            (Some(rule), Some(kernel)) => {
                if self.odd {
                    next_generation(rule, self.time_scale, kernel, &self.cells1, self.width, self.height)
                } else {
                    next_generation(rule, self.time_scale, kernel, &self.cells0, self.width, self.height)
                }
            },
            _ => {
                return Err(StepError::MissingParameters);
            },
        };
        if self.odd {
            self.cells0 = next;
        } else {
            self.cells1 = next;
        }
        self.odd = !self.odd;
        Ok(())
    }

    /// Flips between paused and playing. Starting to play schedules the first
    /// step; pausing cancels nothing, so a step already scheduled still runs.
    pub fn toggle_play(&mut self) -> (r: Reaction)
        requires
            old(self).wf(),
        ensures
            final(self).wf(),
            final(self).playing() == !old(self).playing(),
            final(self).kernel() == old(self).kernel(),
            final(self).step_function() == old(self).step_function(),
            final(self).time_scale() == old(self).time_scale(),
            Self::same_state(*old(self), *final(self)),
            r == (Reaction { emit: false, schedule_step: final(self).playing() }),
    {
        self.playing = !self.playing;
        Reaction { emit: false, schedule_step: self.playing }
    }

    /// Handles a scheduled step: steps, shows the grid if the step ran, and
    /// schedules the next one while playing.
    pub fn update(&mut self, msg: GameOfLifeMessage) -> (r: Reaction)
        requires
            old(self).wf(),
        ensures
            final(self).wf(),
            exists|s: Result<(), StepError>| #[trigger] Self::step_post(*old(self), *final(self), s)
                && r == (Reaction { emit: s is Ok, schedule_step: old(self).playing() }),
    {
        match msg {
            GameOfLifeMessage::Step => {
                let s = self.step();
                Reaction { emit: s.is_ok(), schedule_step: self.playing }
            },
        }
    }

    /// The inputs' own rules accept everything they can be given.
    pub open spec fn input_ok<G: Fn(usize, usize) -> T>(input: GameOfLifeInput<T, F, G>) -> bool {
        match input {
            GameOfLifeInput::SetFunction(f) => rule_total(f),
            GameOfLifeInput::InitNoise(w, h, g, _) => forall|x: usize, y: usize|
                x < w && y < h ==> g.requires((x, y)),
            _ => true,
        }
    }

    /// What handling `input` does to the engine and what it asks of the
    /// driver: settings change silently, an initialization is shown, a manual
    /// step is shown only if it ran, and toggling schedules a step only when
    /// play starts.
    pub open spec fn input_post<G: Fn(usize, usize) -> T>(
        pre: Self,
        input: GameOfLifeInput<T, F, G>,
        post: Self,
        r: Reaction,
    ) -> bool {
        match input {
            GameOfLifeInput::SetFunction(f) => {
                &&& post.step_function() == Some(f)
                &&& post.kernel() == pre.kernel()
                &&& post.time_scale() == pre.time_scale()
                &&& post.playing() == pre.playing()
                &&& Self::same_state(pre, post)
                &&& r == (Reaction { emit: false, schedule_step: false })
            },
            GameOfLifeInput::SetKernel(k) => {
                &&& post.kernel() == Some(k@)
                &&& post.step_function() == pre.step_function()
                &&& post.time_scale() == pre.time_scale()
                &&& post.playing() == pre.playing()
                &&& Self::same_state(pre, post)
                &&& r == (Reaction { emit: false, schedule_step: false })
            },
            GameOfLifeInput::SetTimeScale(t) => {
                &&& post.time_scale() == t
                &&& post.kernel() == pre.kernel()
                &&& post.step_function() == pre.step_function()
                &&& post.playing() == pre.playing()
                &&& Self::same_state(pre, post)
                &&& r == (Reaction { emit: false, schedule_step: false })
            },
            GameOfLifeInput::TogglePlay => {
                &&& post.playing() == !pre.playing()
                &&& post.kernel() == pre.kernel()
                &&& post.step_function() == pre.step_function()
                &&& post.time_scale() == pre.time_scale()
                &&& Self::same_state(pre, post)
                &&& r == (Reaction { emit: false, schedule_step: post.playing() })
            },
            GameOfLifeInput::InitVal(w, h, v) => {
                &&& Self::same_settings(pre, post)
                &&& post.initialized()
                &&& !post.parity()
                &&& post.width() == w
                &&& post.height() == h
                &&& post.buffer(0) == filled(w as int, h as int, v)
                &&& post.buffer(1) == filled(w as int, h as int, v)
                &&& r == (Reaction { emit: true, schedule_step: false })
            },
            GameOfLifeInput::InitNoise(w, h, g, b) => {
                &&& Self::same_settings(pre, post)
                &&& post.initialized()
                &&& !post.parity()
                &&& post.width() == w
                &&& post.height() == h
                &&& has_shape(post.buffer(0), w as int, h as int)
                &&& forall|x: usize, y: usize|
                    x < w && y < h ==> g.ensures((x, y), #[trigger] post.buffer(0)[y as int][x as int])
                &&& post.buffer(1) == filled(w as int, h as int, b)
                &&& r == (Reaction { emit: true, schedule_step: false })
            },
            GameOfLifeInput::Step => exists|s: Result<(), StepError>| #[trigger] Self::step_post(pre, post, s)
                && r == (Reaction { emit: s is Ok, schedule_step: false }),
        }
    }

    /// Handles one command from the engine's user.
    pub fn handle_input<G: Fn(usize, usize) -> T>(&mut self, input: GameOfLifeInput<T, F, G>) -> (r: Reaction)
        requires
            old(self).wf(),
            Self::input_ok(input),
        ensures
            final(self).wf(),
            Self::input_post(*old(self), input, *final(self), r),
    {
        match input {
            GameOfLifeInput::SetFunction(f) => {
                self.set_function(f);
                Reaction { emit: false, schedule_step: false }
            },
            GameOfLifeInput::SetKernel(k) => {
                self.set_kernel(k);
                Reaction { emit: false, schedule_step: false }
            },
            GameOfLifeInput::SetTimeScale(t) => {
                self.set_time_scale(t);
                Reaction { emit: false, schedule_step: false }
            },
            GameOfLifeInput::TogglePlay => self.toggle_play(),
            GameOfLifeInput::InitVal(w, h, v) => {
                self.val_init(w, h, v);
                Reaction { emit: true, schedule_step: false }
            },
            GameOfLifeInput::InitNoise(w, h, g, b) => {
                self.noise_init(w, h, &g, b);
                Reaction { emit: true, schedule_step: false }
            },
            GameOfLifeInput::Step => {
                let s = self.step();
                Reaction { emit: s.is_ok(), schedule_step: false }
            },
        }
    }

    /// The current grid: what observers are shown.
    pub fn current_grid(&self) -> (r: &Vec<Vec<T>>)
        ensures
            grid_view(*r) == self.current(),
    {
        if self.odd {
            &self.cells1
        } else {
            &self.cells0
        }
    }

    /// Both buffers, 0 then 1.
    pub fn buffers(&self) -> (r: (&Vec<Vec<T>>, &Vec<Vec<T>>))
        ensures
            grid_view(*r.0) == self.buffer(0),
            grid_view(*r.1) == self.buffer(1),
    {
        (&self.cells0, &self.cells1)
    }

    /// Whether buffer 1 is the current one.
    pub fn is_odd(&self) -> (r: bool)
        ensures
            r == self.parity(),
    {
        self.odd
    }

    pub fn is_initialized(&self) -> (r: bool)
        ensures
            r == self.initialized(),
    {
        self.initialized
    }

    pub fn is_playing(&self) -> (r: bool)
        ensures
            r == self.playing(),
    {
        self.playing
    }

    /// Both buffers of a well-formed engine are `height` rows of `width`
    /// cells; initialization sets that shape and steps keep it.
    pub proof fn lemma_buffers_have_shape(g: Self)
        requires
            g.wf(),
        ensures
            has_shape(g.buffer(0), g.width(), g.height()),
            has_shape(g.buffer(1), g.width(), g.height()),
            has_shape(g.current(), g.width(), g.height()),
            has_shape(g.next(), g.width(), g.height()),
    {
    }

    /// The parity flips exactly when a step runs, and the grid that was
    /// current becomes the one the following step writes over.
    pub proof fn lemma_step_swaps_once(pre: Self, post: Self, r: Result<(), StepError>)
        requires
            Self::step_post(pre, post, r),
        ensures
            post.parity() == (pre.parity() != (r is Ok)),
            r is Ok ==> post.next() == pre.current(),
            r is Err ==> post.current() == pre.current() && post.next() == pre.next(),
    {
    }

    /// A step asked for before any initialization changes nothing and shows
    /// nothing.
    pub proof fn lemma_step_before_init_is_noop<G: Fn(usize, usize) -> T>(pre: Self, post: Self, r: Reaction)
        requires
            !pre.initialized(),
            Self::input_post(pre, GameOfLifeInput::<T, F, G>::Step, post, r),
        ensures
            Self::same_state(pre, post),
            Self::same_settings(pre, post),
            !r.emit,
            !r.schedule_step,
    {
    }
}

} // verus!
