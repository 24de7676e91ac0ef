//! The simulation: the game-mode state machine, the obstacle procession,
//! the score, and the per-step orchestration of physics, scrolling,
//! collision and spawning.

use vstd::prelude::*;
use vstd::pervasive::VecAdditionalExecFns;
use crate::draw::{Backdrop, Cell, Frame, Msg, TextCmd};
use crate::obstacle::{spawned, Obstacle};
use crate::player::{after_gravity, flapped, player_cell, Player};
use crate::{
    FRAME_DURATION_MS, GAP_CENTER_HIGH, GAP_CENTER_LOW, GAP_FLOOR_SIZE, GAP_FULL_SIZE,
    INITIAL_SPEED_MILLI, PLAYER_SPAWN_X, PLAYER_SPAWN_Y, SCREEN_HEIGHT, SCREEN_WIDTH,
};

verus! {

/// The mode the simulation is in.
#[derive(Clone, Copy, Debug, PartialEq, Eq, Structural)]
pub enum GameMode {
    Menu,
    Playing,
    End,
}

/// The key classes the simulation reacts to; the shell hands any other key
/// in as no key at all.
#[derive(Clone, Copy, Debug, PartialEq, Eq, Structural)]
pub enum Key {
    /// The flap key, read during play.
    Flap,
    /// The play key, read on the menu and end screens.
    Play,
    /// The quit key, read on the menu and end screens.
    Quit,
}

/// Display geometry, fixed when the simulation is built.
#[derive(Clone, Copy, Debug, PartialEq, Eq, Structural)]
pub struct GameConfig {
    pub screen_width: i32,
    pub screen_height: i32,
}

impl GameConfig {
    /// The geometry must leave the player's spawn column on screen, and at
    /// least one row to play in.
    pub open spec fn wf(self) -> bool {
        &&& PLAYER_SPAWN_X <= self.screen_width
        &&& 0 < self.screen_height
    }

    /// The standard 80-column, 50-row play field.
    pub fn standard() -> (c: GameConfig)
        ensures
            c.screen_width == SCREEN_WIDTH,
            c.screen_height == SCREEN_HEIGHT,
            c.wf(),
    {
        GameConfig { screen_width: SCREEN_WIDTH, screen_height: SCREEN_HEIGHT }
    }
}

/// The whole simulation state.
#[derive(Clone, Debug)]
pub struct State {
    pub config: GameConfig,
    pub mode: GameMode,
    pub player: Player,
    /// Milliseconds accumulated since the last scroll step.
    pub frame_time_ms: u64,
    /// Obstacles passed so far this game.
    pub score: u32,
    /// The obstacles on or right of the screen, in spawn order; the first is
    /// the leftmost, the last is the tail obstacle the collision and pass
    /// checks read.
    pub obstacles: Vec<Obstacle>,
}

/// Every obstacle is well formed and the procession is strictly ordered by
/// column, spawn order being left-to-right order.
pub open spec fn obstacles_wf(s: Seq<Obstacle>) -> bool {
    &&& (forall|i: int| 0 <= i < s.len() ==> s[i].wf())
    &&& (forall|i: int, j: int| 0 <= i < j < s.len() ==> s[i].x < s[j].x)
}

/// The obstacle procession one scroll step later, before removal.
pub open spec fn stepped_left(s: Seq<Obstacle>) -> Seq<Obstacle> {
    Seq::new(
        s.len(),
        |i: int| (Obstacle { x: (s[i].x - 1) as i32, gap_y: s[i].gap_y, size: s[i].size }),
    )
}

/// One scroll step: every obstacle advances one column left, and when the
/// head obstacle has left the screen it is removed from the front.
pub open spec fn scrolled(s: Seq<Obstacle>) -> Seq<Obstacle>
    recommends
        s.len() >= 1,
{
    let m = stepped_left(s);
    if m[0].x < 0 {
        m.remove(0)
    } else {
        m
    }
}

/// The wall cells of a whole procession, head first.
pub open spec fn obstacles_cells(s: Seq<Obstacle>, screen_height: int) -> Seq<Cell>
    decreases s.len(),
{
    if s.len() == 0 {
        Seq::empty()
    } else {
        obstacles_cells(s.drop_last(), screen_height) + s.last().cells(screen_height)
    }
}

/// The same state with only the mode replaced.
pub open spec fn with_mode(s: State, mode: GameMode) -> State {
    State {
        config: s.config,
        mode: mode,
        player: s.player,
        frame_time_ms: s.frame_time_ms,
        score: s.score,
        obstacles: s.obstacles,
    }
}

/// What restarting leaves behind, whatever mode it was called from: a fresh
/// game under the same geometry — the player back at the spawn cell with
/// the initial speed, the score and the scroll clock cleared, and exactly
/// one fresh obstacle at the right screen edge.
pub open spec fn restarted(pre: State, post: State) -> bool {
    &&& post.config == pre.config
    &&& post.mode == GameMode::Playing
    &&& post.player == (Player {
        x: PLAYER_SPAWN_X,
        y: PLAYER_SPAWN_Y,
        speed_milli: INITIAL_SPEED_MILLI,
    })
    &&& post.frame_time_ms == 0
    &&& post.score == 0
    &&& post.obstacles@.len() == 1
    &&& spawned(post.obstacles@[0], pre.config.screen_width as int, 0)
}

/// A freshly built simulation: like a restart, but waiting on the menu.
pub open spec fn initialized(config: GameConfig, s: State) -> bool {
    &&& s.config == config
    &&& s.mode == GameMode::Menu
    &&& s.player == (Player {
        x: PLAYER_SPAWN_X,
        y: PLAYER_SPAWN_Y,
        speed_milli: INITIAL_SPEED_MILLI,
    })
    &&& s.frame_time_ms == 0
    &&& s.score == 0
    &&& s.obstacles@.len() == 1
    &&& spawned(s.obstacles@[0], config.screen_width as int, 0)
}

/// The menu screen: no play-field cells, the three menu lines.
pub open spec fn menu_frame(f: Frame) -> bool {
    &&& f.backdrop == Backdrop::Plain
    &&& f.cells@ == Seq::<Cell>::empty()
    &&& f.texts@ == seq![
        (TextCmd::Centered { y: 5, msg: Msg::Welcome }),
        (TextCmd::Centered { y: 8, msg: Msg::PlayHint }),
        (TextCmd::Centered { y: 9, msg: Msg::QuitHint }),
    ]
}

/// What a menu step does: it shows the menu and reacts only to the play key
/// (restart) and the quit key (request exit, touch nothing else).
pub open spec fn menu_post(pre: State, post: State, f: Frame, key: Option<Key>) -> bool {
    &&& menu_frame(f)
    &&& match key {
        Some(Key::Play) => restarted(pre, post) && !f.quit,
        Some(Key::Quit) => post == with_mode(pre, GameMode::Menu) && f.quit,
        _ => post == with_mode(pre, GameMode::Menu) && !f.quit,
    }
}

/// The end screen: no play-field cells, the four end lines with the score
/// the finished game earned.
pub open spec fn dead_frame(pre: State, f: Frame) -> bool {
    &&& f.backdrop == Backdrop::Plain
    &&& f.cells@ == Seq::<Cell>::empty()
    &&& f.texts@ == seq![
        (TextCmd::Centered { y: 5, msg: Msg::Dead }),
        (TextCmd::Centered { y: 6, msg: Msg::Earned(pre.score) }),
        (TextCmd::Centered { y: 9, msg: Msg::PlayAgainHint }),
        (TextCmd::Centered { y: 10, msg: Msg::QuitHint }),
    ]
}

/// What an end-screen step does: like the menu, but with the end lines, and
/// the mode pinned to `End` while no restart happens.
pub open spec fn dead_post(pre: State, post: State, f: Frame, key: Option<Key>) -> bool {
    &&& dead_frame(pre, f)
    &&& match key {
        Some(Key::Play) => restarted(pre, post) && !f.quit,
        Some(Key::Quit) => post == with_mode(pre, GameMode::End) && f.quit,
        _ => post == with_mode(pre, GameMode::End) && !f.quit,
    }
}

/// The score one pass later: one more obstacle passed, held at the top of
/// `u32`.
pub open spec fn bumped(score: u32) -> int {
    if score == u32::MAX {
        score as int
    } else {
        score + 1
    }
}

/// What one play step does.  The elapsed time joins the scroll clock and,
/// once more than one scroll step's worth has accumulated, the clock clears
/// and the procession scrolls.  A flap key flaps the player before gravity
/// integrates this frame's elapsed time.  The frame draws the player and the
/// procession over the sky and shows the score the step began with.  The
/// game is lost — the mode falls to `End` — exactly when the player's row
/// leaves the screen downward or the player hits the tail obstacle.  Last,
/// when the player's column has passed the tail obstacle's, the score grows
/// by one and a fresh obstacle spawns at the right screen edge under the
/// grown score.
pub open spec fn play_post(
    pre: State,
    post: State,
    f: Frame,
    elapsed_ms: int,
    key: Option<Key>,
) -> bool {
    let ft = pre.frame_time_ms + elapsed_ms;
    let scroll = ft > FRAME_DURATION_MS;
    let obs = if scroll {
        scrolled(pre.obstacles@)
    } else {
        pre.obstacles@
    };
    let steered = if key == Some(Key::Flap) {
        flapped(pre.player)
    } else {
        pre.player
    };
    let moved = after_gravity(steered, elapsed_ms);
    let lost = moved.y > pre.config.screen_height || obs.last().hits(moved);
    let passed = moved.x > obs.last().x;
    &&& post.config == pre.config
    &&& post.frame_time_ms == if scroll {
        0int
    } else {
        ft
    }
    &&& post.player == moved
    &&& post.mode == if lost {
        GameMode::End
    } else {
        pre.mode
    }
    &&& post.score == if passed {
        bumped(pre.score)
    } else {
        pre.score as int
    }
    &&& if passed {
        &&& post.obstacles@.len() == obs.len() + 1
        &&& post.obstacles@.drop_last() == obs
        &&& spawned(post.obstacles@.last(), pre.config.screen_width as int, bumped(pre.score))
    } else {
        post.obstacles@ == obs
    }
    &&& f.backdrop == Backdrop::Sky
    &&& !f.quit
    &&& f.cells@ == seq![player_cell(moved)] + obstacles_cells(obs, pre.config.screen_height as int)
    &&& f.texts@ == seq![
        (TextCmd::At { x: 0, y: 0, msg: Msg::FlapHint }),
        (TextCmd::At { x: 0, y: 1, msg: Msg::Score(pre.score) }),
    ]
}

/// In a procession where every neighbour pair is ordered by column, any two
/// obstacles are.
proof fn lemma_neighbour_order_is_total(s: Seq<Obstacle>, i: int, j: int)
    requires
        forall|k: int| 0 <= k < s.len() - 1 ==> #[trigger] s[k].x < s[k + 1].x,
        0 <= i < j < s.len(),
    ensures
        s[i].x < s[j].x,
    decreases j - i,
{
    assert(s[i].x < s[i + 1].x);
    if i + 1 < j {
        lemma_neighbour_order_is_total(s, i + 1, j);
    }
}

/// A scroll step keeps the procession non-empty, well formed, on screen on
/// the left, and moves the tail obstacle exactly one column left — as long
/// as some column at or right of 1 (the player's, during play) has not
/// passed the tail.
proof fn lemma_scroll_step(s: Seq<Obstacle>, lo_x: int, hi_x: int)
    requires
        s.len() >= 1,
        obstacles_wf(s),
        0 <= s.first().x,
        1 <= lo_x,
        lo_x <= s.last().x,
        s.last().x <= hi_x,
    ensures
        scrolled(s).len() >= 1,
        obstacles_wf(scrolled(s)),
        0 <= scrolled(s).first().x,
        scrolled(s).last().x == s.last().x - 1,
{
    let m = stepped_left(s);
    assert forall|i: int| 0 <= i < s.len() implies s[i].x >= 0 by {
        if i > 0 {
            assert(s[0].x < s[i].x);
        }
    }
    assert forall|i: int| 0 <= i < m.len() implies m[i].x == s[i].x - 1 && m[i].wf() by {
        assert(s[i].x >= 0);
        assert(s[i].wf());
    }
    if m[0].x < 0 {
        if s.len() == 1 {
            assert(s.last() == s[0]);
            assert(false);
        }
        let r = m.remove(0);
        assert(r =~= m.subrange(1, m.len() as int));
        assert(forall|i: int| 0 <= i < r.len() ==> r[i] == m[i + 1]);
        assert(scrolled(s) == r);
        assert(r.last() == m.last());
        assert(m.last().x == s.last().x - 1);
        assert(0 <= r.first().x) by {
            assert(s[0].x < s[1].x);
        }
        assert(obstacles_wf(r)) by {
            assert forall|i: int, j: int| 0 <= i < j < r.len() implies r[i].x < r[j].x by {
                assert(s[i + 1].x < s[j + 1].x);
            }
        }
    } else {
        assert(scrolled(s) == m);
        assert(m.last().x == s.last().x - 1);
        assert(obstacles_wf(m)) by {
            assert forall|i: int, j: int| 0 <= i < j < m.len() implies m[i].x < m[j].x by {
                assert(s[i].x < s[j].x);
            }
        }
    }
}

impl State {
    /// The invariant every simulation step preserves.  The player sits on
    /// the screen's columns at or below the top row; the scroll clock never
    /// holds more than one step's worth of time; and the obstacle procession
    /// is non-empty, ordered, on or right of the screen, with its tail
    /// obstacle not yet passed and not beyond the right screen edge.
    pub open spec fn wf(self) -> bool {
        &&& self.config.wf()
        &&& self.player.wf()
        &&& self.player.y >= 0
        &&& 0 < self.player.x
        &&& self.player.x <= self.config.screen_width
        &&& self.frame_time_ms <= FRAME_DURATION_MS
        &&& 1 <= self.obstacles@.len()
        &&& obstacles_wf(self.obstacles@)
        &&& 0 <= self.obstacles@.first().x
        &&& self.player.x <= self.obstacles@.last().x
        &&& self.obstacles@.last().x <= self.config.screen_width
    }

    /// Decides the invariant at run time, for a caller that assembled a
    /// state by hand and wants it validated before stepping it.
    pub fn is_well_formed(&self) -> (r: bool)
        ensures
            r == self.wf(),
    {
        if !(PLAYER_SPAWN_X <= self.config.screen_width && 0 < self.config.screen_height) {
            return false;
        }
        if !(self.player.speed_milli >= INITIAL_SPEED_MILLI && self.player.y >= 0
            && 0 < self.player.x && self.player.x <= self.config.screen_width) {
            return false;
        }
        if self.frame_time_ms > FRAME_DURATION_MS {
            return false;
        }
        let n = self.obstacles.len();
        if n == 0 {
            return false;
        }
        let mut i: usize = 0;
        while i < n
            invariant
                n == self.obstacles@.len(),
                i <= n,
                forall|k: int| 0 <= k < i ==> self.obstacles@[k].wf(),
                forall|k: int| 0 <= k < i && k < n - 1 ==> #[trigger] self.obstacles@[k].x
                    < self.obstacles@[k + 1].x,
            decreases n - i,
        {
            let o = self.obstacles[i];
            if !(GAP_FLOOR_SIZE <= o.size && o.size <= GAP_FULL_SIZE && GAP_CENTER_LOW <= o.gap_y
                && o.gap_y < GAP_CENTER_HIGH) {
                proof {
                    assert(!self.obstacles@[i as int].wf());
                }
                return false;
            }
            if i + 1 < n && !(o.x < self.obstacles[i + 1].x) {
                return false;
            }
            i = i + 1;
        }
        proof {
            assert forall|a: int, b: int|
                0 <= a < b < self.obstacles@.len() implies self.obstacles@[a].x
                < self.obstacles@[b].x by {
                lemma_neighbour_order_is_total(self.obstacles@, a, b);
            }
        }
        if self.obstacles[0].x < 0 {
            return false;
        }
        let last = self.obstacles[n - 1];
        if !(self.player.x <= last.x && last.x <= self.config.screen_width) {
            return false;
        }
        true
    }

    /// A simulation on the standard play field, waiting on the menu.
    pub fn new() -> (s: State)
        ensures
            initialized(GameConfig { screen_width: SCREEN_WIDTH, screen_height: SCREEN_HEIGHT }, s),
            s.wf(),
    {
        State::new_with_config(GameConfig::standard())
    }

    /// A simulation on the given play field, waiting on the menu.
    pub fn new_with_config(config: GameConfig) -> (s: State)
        requires
            config.wf(),
        ensures
            initialized(config, s),
            s.wf(),
    {
        let mut obstacles: Vec<Obstacle> = Vec::new();
        obstacles.push(Obstacle::new(config.screen_width, 0));
        State {
            config,
            mode: GameMode::Menu,
            player: Player::new(PLAYER_SPAWN_X, PLAYER_SPAWN_Y),
            frame_time_ms: 0,
            score: 0,
            obstacles,
        }
    }

    /// Starts a fresh game under the same geometry, from whatever mode.
    pub fn restart(&mut self)
        requires
            old(self).config.wf(),
        ensures
            restarted(*old(self), *final(self)),
            final(self).wf(),
    {
        self.mode = GameMode::Playing;
        self.player = Player::new(PLAYER_SPAWN_X, PLAYER_SPAWN_Y);
        self.frame_time_ms = 0;
        self.score = 0;
        let mut obstacles: Vec<Obstacle> = Vec::new();
        obstacles.push(Obstacle::new(self.config.screen_width, 0));
        self.obstacles = obstacles;
    }

    /// One step on the menu screen.
    pub fn main_menu(&mut self, key: Option<Key>) -> (f: Frame)
        requires
            old(self).config.wf(),
        ensures
            menu_post(*old(self), *final(self), f, key),
            old(self).wf() ==> final(self).wf(),
    {
        self.mode = GameMode::Menu;
        let mut texts: Vec<TextCmd> = Vec::new();
        texts.push(TextCmd::Centered { y: 5, msg: Msg::Welcome });
        texts.push(TextCmd::Centered { y: 8, msg: Msg::PlayHint });
        texts.push(TextCmd::Centered { y: 9, msg: Msg::QuitHint });
        proof {
            assert(texts@ =~= seq![
                (TextCmd::Centered { y: 5, msg: Msg::Welcome }),
                (TextCmd::Centered { y: 8, msg: Msg::PlayHint }),
                (TextCmd::Centered { y: 9, msg: Msg::QuitHint }),
            ]);
        }
        let mut quit = false;
        match key {
            Some(Key::Play) => self.restart(),
            Some(Key::Quit) => {
                quit = true;
            },
            _ => {},
        }
        Frame { backdrop: Backdrop::Plain, cells: Vec::new(), texts, quit }
    }

    /// One step on the end screen.
    pub fn dead(&mut self, key: Option<Key>) -> (f: Frame)
        requires
            old(self).config.wf(),
        ensures
            dead_post(*old(self), *final(self), f, key),
            old(self).wf() ==> final(self).wf(),
    {
        self.mode = GameMode::End;
        let mut texts: Vec<TextCmd> = Vec::new();
        texts.push(TextCmd::Centered { y: 5, msg: Msg::Dead });
        texts.push(TextCmd::Centered { y: 6, msg: Msg::Earned(self.score) });
        texts.push(TextCmd::Centered { y: 9, msg: Msg::PlayAgainHint });
        texts.push(TextCmd::Centered { y: 10, msg: Msg::QuitHint });
        proof {
            assert(texts@ =~= seq![
                (TextCmd::Centered { y: 5, msg: Msg::Dead }),
                (TextCmd::Centered { y: 6, msg: Msg::Earned(old(self).score) }),
                (TextCmd::Centered { y: 9, msg: Msg::PlayAgainHint }),
                (TextCmd::Centered { y: 10, msg: Msg::QuitHint }),
            ]);
        }
        let mut quit = false;
        match key {
            Some(Key::Play) => self.restart(),
            Some(Key::Quit) => {
                quit = true;
            },
            _ => {},
        }
        Frame { backdrop: Backdrop::Plain, cells: Vec::new(), texts, quit }
    }

    /// Ends the running game and shows the end screen.
    pub fn game_over(&mut self, key: Option<Key>) -> (f: Frame)
        requires
            old(self).config.wf(),
        ensures
            dead_post(*old(self), *final(self), f, key),
            old(self).wf() ==> final(self).wf(),
    {
        self.mode = GameMode::End;
        self.dead(key)
    }

    /// One scroll step over the whole procession: every obstacle moves one
    /// column left; a head obstacle that has left the screen is removed
    /// from the front.
    pub fn obstacles_move_left(&mut self)
        requires
            old(self).obstacles@.len() >= 1,
            forall|i: int|
                0 <= i < old(self).obstacles@.len() ==> old(self).obstacles@[i].x > i32::MIN,
        ensures
            final(self).obstacles@ == scrolled(old(self).obstacles@),
            final(self).config == old(self).config,
            final(self).mode == old(self).mode,
            final(self).player == old(self).player,
            final(self).frame_time_ms == old(self).frame_time_ms,
            final(self).score == old(self).score,
    {
        let n = self.obstacles.len();
        let mut i: usize = 0;
        while i < n
            invariant
                n == self.obstacles@.len(),
                n == old(self).obstacles@.len(),
                i <= n,
                forall|k: int| i <= k < n ==> self.obstacles@[k] == old(self).obstacles@[k],
                forall|k: int|
                    0 <= k < n ==> old(self).obstacles@[k].x > i32::MIN,
                forall|k: int| 0 <= k < i ==> self.obstacles@[k] == stepped_left(
                    old(self).obstacles@,
                )[k],
                self.config == old(self).config,
                self.mode == old(self).mode,
                self.player == old(self).player,
                self.frame_time_ms == old(self).frame_time_ms,
                self.score == old(self).score,
            decreases n - i,
        {
            let mut o = self.obstacles[i];
            o.move_left();
            self.obstacles.set(i, o);
            proof {
                assert(o == stepped_left(old(self).obstacles@)[i as int]);
            }
            i = i + 1;
        }
        proof {
            assert(self.obstacles@ =~= stepped_left(old(self).obstacles@));
        }
        if self.obstacles[0].x < 0 {
            self.obstacles.remove(0);
        }
    }

    /// The draw commands for the whole procession, head first.
    pub fn render_obstacles(&self) -> (cells: Vec<Cell>)
        requires
            forall|i: int| 0 <= i < self.obstacles@.len() ==> self.obstacles@[i].wf(),
        ensures
            cells@ == obstacles_cells(self.obstacles@, self.config.screen_height as int),
    {
        let ghost h: int = self.config.screen_height as int;
        let mut cells: Vec<Cell> = Vec::new();
        let mut i: usize = 0;
        while i < self.obstacles.len()
            invariant
                i <= self.obstacles@.len(),
                forall|k: int| 0 <= k < self.obstacles@.len() ==> self.obstacles@[k].wf(),
                h == self.config.screen_height as int,
                cells@ == obstacles_cells(self.obstacles@.take(i as int), h),
            decreases self.obstacles@.len() - i,
        {
            let mut more = self.obstacles[i].render_cells(self.config.screen_height);
            cells.append(&mut more);
            proof {
                let s = self.obstacles@;
                assert(s.take(i + 1).drop_last() =~= s.take(i as int));
                assert(s.take(i + 1).last() == s[i as int]);
            }
            i = i + 1;
        }
        proof {
            assert(self.obstacles@.take(self.obstacles@.len() as int) =~= self.obstacles@);
        }
        cells
    }

    /// One step of running play.
    #[verifier::rlimit(50)]
    pub fn play(&mut self, elapsed_ms: u32, key: Option<Key>) -> (f: Frame)
        requires
            old(self).wf(),
        ensures
            final(self).wf(),
            play_post(*old(self), *final(self), f, elapsed_ms as int, key),
    {
        let ghost pre: State = *old(self);

        // Accumulate the elapsed time; past one scroll step's worth, clear
        // the clock and scroll the procession.
        let ft: u64 = self.frame_time_ms + (elapsed_ms as u64);
        if ft > FRAME_DURATION_MS {
            self.frame_time_ms = 0;
            proof {
                assert forall|i: int|
                    0 <= i < self.obstacles@.len() implies self.obstacles@[i].x > i32::MIN by {
                    if i > 0 {
                        assert(self.obstacles@[0].x < self.obstacles@[i].x);
                    }
                }
                lemma_scroll_step(
                    pre.obstacles@,
                    pre.player.x as int,
                    pre.config.screen_width as int,
                );
            }
            self.obstacles_move_left();
        } else {
            self.frame_time_ms = ft;
        }
        let ghost obs: Seq<Obstacle> = self.obstacles@;
        proof {
            assert(obs.len() >= 1);
            assert(obstacles_wf(obs));
            assert(0 <= obs.first().x);
            assert(obs.last().x <= pre.config.screen_width);
        }

        // A flap cancels the fall before this frame's gravity acts.
        match key {
            Some(Key::Flap) => self.player.flap(),
            _ => {},
        }
        self.player.gravity(elapsed_ms);
        let ghost moved: Player = self.player;

        // Draw the player over the procession's walls.
        let mut cells: Vec<Cell> = Vec::new();
        cells.push(self.player.render_cell());
        let mut wall_cells = self.render_obstacles();
        cells.append(&mut wall_cells);
        proof {
            assert(cells@ =~= seq![player_cell(moved)] + obstacles_cells(
                obs,
                pre.config.screen_height as int,
            ));
        }

        // The loss check: off the screen downward, or into the tail obstacle.
        let tail: Obstacle = self.obstacles[self.obstacles.len() - 1];
        let lost = self.player.y > self.config.screen_height || tail.hit_obstacle(&self.player);
        if lost {
            self.mode = GameMode::End;
        }

        // The running text, with the score this step began with.
        let mut texts: Vec<TextCmd> = Vec::new();
        texts.push(TextCmd::At { x: 0, y: 0, msg: Msg::FlapHint });
        texts.push(TextCmd::At { x: 0, y: 1, msg: Msg::Score(self.score) });
        proof {
            assert(texts@ =~= seq![
                (TextCmd::At { x: 0, y: 0, msg: Msg::FlapHint }),
                (TextCmd::At { x: 0, y: 1, msg: Msg::Score(pre.score) }),
            ]);
        }

        // The pass check: a tail obstacle left behind scores and spawns the
        // next, harder one at the right screen edge.
        if self.player.x > tail.x {
            let new_score = if self.score < u32::MAX {
                self.score + 1
            } else {
                self.score
            };
            self.score = new_score;
            let fresh = Obstacle::new(self.config.screen_width, self.score);
            self.obstacles.push(fresh);
            proof {
                assert(self.obstacles@.drop_last() =~= obs);
            }
        }

        Frame { backdrop: Backdrop::Sky, cells, texts, quit: false }
    }

    /// One simulation step: dispatches on the mode to the menu, play, or
    /// end-screen handler.
    pub fn tick(&mut self, elapsed_ms: u32, key: Option<Key>) -> (f: Frame)
        requires
            old(self).wf(),
        ensures
            final(self).wf(),
            match old(self).mode {
                GameMode::Menu => menu_post(*old(self), *final(self), f, key),
                GameMode::Playing => play_post(*old(self), *final(self), f, elapsed_ms as int, key),
                GameMode::End => dead_post(*old(self), *final(self), f, key),
            },
    {
        match self.mode {
            GameMode::Menu => self.main_menu(key),
            GameMode::Playing => self.play(elapsed_ms, key),
            GameMode::End => self.game_over(key),
        }
    }
}

} // verus!
