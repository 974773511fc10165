//! The universe: the entity store together with the timer, the session, the
//! input latch and the current stage of the game, and the frame that
//! advances all of them.

use vstd::prelude::*;
use crate::fixed::Fixed;
use crate::graphics::Renderer;
use crate::input::{distinct, Attention, Input, Key};
use crate::session::{raised, Session};
use crate::states::{stage_start, EmptyState, Stage, State};
use crate::store::{Row, Store, StoreView};
use crate::systems::camera::{camera, camera_spec};
use crate::systems::contact::{contact_spec, contactdamage};
use crate::systems::death::{death, death_spec, fallen};
use crate::systems::enemyai::{enemyai, enemyai_spec};
use crate::systems::input::{input, input_spec};
use crate::systems::physics::{physics, physics_spec};
use crate::systems::render::{planned, render, Frame};
use crate::systems::selfdamage::{selfdamage, selfdamage_spec};
use crate::systems::spawn::{roll_fits, spawn, spawn_spec, SpawnRoll};
use crate::systems::status::{enemies_alive, players_alive, status, status_text};
use crate::time::{mean, seconds_of, Timer, TimerView};

verus! {

/// Number of frames over which the frame time is smoothed.
pub const SMOOTH_FRAMES: usize = 20;

/// Everything that a frame reads and writes.
pub struct Universe {
    pub store: Store,
    pub timer: Timer,
    pub session: Session,
    pub input: Input,
    pub attention: Attention,
    pub renderer: Renderer,
    pub stage: Stage,
}

/// The mathematical content of a universe.
pub struct UniverseView {
    pub store: StoreView,
    pub timer: TimerView,
    pub session: Session,
    pub input: Seq<Key>,
    pub attention: Attention,
    pub renderer: Renderer,
    pub stage: Stage,
}

impl View for Universe {
    type V = UniverseView;

    open spec fn view(&self) -> UniverseView {
        UniverseView {
            store: self.store@,
            timer: self.timer@,
            session: self.session,
            input: self.input@,
            attention: self.attention,
            renderer: self.renderer,
            stage: self.stage,
        }
    }
}

impl UniverseView {
    /// The invariant of a universe: that of its store and of its latch.
    pub open spec fn wf(self) -> bool {
        self.store.wf() && distinct(self.input)
    }

    /// The universe after a restart: an empty store filled by the stage, no
    /// points, no running time, no key down.
    pub open spec fn restarted(self) -> UniverseView {
        stage_start(
            self.stage,
            UniverseView {
                store: StoreView { rows: Seq::empty(), next: self.store.next },
                timer: self.timer.rewound(),
                session: Session { score: 0 },
                input: Seq::empty(),
                attention: self.attention,
                renderer: self.renderer,
                stage: self.stage,
            },
        )
    }

    /// Duration in seconds of the frame that the timer has recorded.
    pub open spec fn delta(self) -> Fixed {
        seconds_of(self.timer.frame_time)
    }

    /// The store as the spawn system of a frame finds it.
    pub open spec fn steered(self) -> StoreView {
        input_spec(self.store, self.input, self.delta(), self.timer.lifetime)
    }

    /// The store as the contact system of a frame finds it.
    pub open spec fn spawned(self, rolls: Seq<SpawnRoll>) -> StoreView {
        spawn_spec(self.steered(), self.timer.lifetime, rolls)
    }

    /// The store as the death system of a frame finds it.
    pub open spec fn worn(self, rolls: Seq<SpawnRoll>) -> StoreView {
        selfdamage_spec(
            enemyai_spec(contact_spec(self.spawned(rolls)), self.delta()),
            self.delta(),
        )
    }

    /// The universe after the eight systems ran in their order, with the
    /// timer as it stands and `rolls` as the outcomes of chance.
    pub open spec fn simulated(self, rolls: Seq<SpawnRoll>) -> UniverseView {
        let worn = self.worn(rolls);
        UniverseView {
            store: physics_spec(camera_spec(death_spec(worn), self.delta()), self.delta()),
            timer: self.timer,
            session: Session { score: raised(self.session.score, fallen(worn.rows)) },
            input: self.input,
            attention: self.attention,
            renderer: self.renderer,
            stage: self.stage,
        }
    }

    /// The universe with the timer advanced by a frame of `micros` microseconds.
    pub open spec fn ticked(self, micros: i64) -> UniverseView {
        UniverseView {
            store: self.store,
            timer: self.timer.advanced(micros),
            session: self.session,
            input: self.input,
            attention: self.attention,
            renderer: self.renderer,
            stage: self.stage,
        }
    }

    /// The universe after one frame of `micros` microseconds.
    ///
    /// The timer advances first. Then, if the restart key is down, the
    /// universe restarts and nothing else happens in this frame; else the
    /// systems run.
    pub open spec fn framed(self, micros: i64, rolls: Seq<SpawnRoll>) -> UniverseView {
        if self.input.contains(Key::R) {
            self.ticked(micros).restarted()
        } else {
            self.ticked(micros).simulated(rolls)
        }
    }

    /// Whether `rolls` are possible outcomes for the spawn system of the
    /// frame that `simulated` describes: one for each row, each fitting its row.
    pub open spec fn rolls_fit(self, rolls: Seq<SpawnRoll>) -> bool {
        &&& rolls.len() == self.steered().rows.len()
        &&& forall|k: int|
            0 <= k < rolls.len() ==> roll_fits(#[trigger] rolls[k], self.steered().rows[k])
    }
}

impl Universe {
    /// Whether the invariant of the universe holds.
    pub open spec fn wf(&self) -> bool {
        self@.wf()
    }

    /// A universe with an empty store, no surface to draw to, and the empty stage.
    /// Until there is a surface, the target counts as one by one.
    pub fn new() -> (r: Universe)
        ensures
            r.wf(),
            r@.store.rows.len() == 0,
            r@.store.next == 0,
            r@.session.score == 0,
            r@.input.len() == 0,
            r@.attention == (Attention { focused: true, hovered: false }),
            r@.timer.lifetime.raw == 0,
            r@.timer.smooth == SMOOTH_FRAMES,
            r@.renderer == (Renderer { swapchain: false, camera: None, width: 1, height: 1 }),
            r@.stage == Stage::Empty(EmptyState {  }),
    {
        Universe {
            store: Store::new(),
            timer: Timer::new(SMOOTH_FRAMES),
            session: Session::new(),
            input: Input::new(),
            attention: Attention { focused: true, hovered: false },
            renderer: Renderer { swapchain: false, camera: None, width: 1, height: 1 },
            stage: Stage::Empty(EmptyState {  }),
        }
    }

    /// Restarts the game.
    pub fn reset(&mut self)
        requires
            old(self).wf(),
        ensures
            final(self).wf(),
            final(self)@ == old(self)@.restarted(),
    {
        self.store.clear();
        self.timer.rewind();
        self.session.clear();
        self.input.clear();
        let mut stage: Stage = self.stage;
        assert(self@.store.rows =~= Seq::<Row>::empty());
        assert(self@.input =~= Seq::<Key>::empty());
        stage.init(self);
    }

    /// Notes that there is a surface of the given size to draw to. A surface
    /// without area is none: the universe stays as it is.
    pub fn create_swapchain(&mut self, width: u32, height: u32)
        ensures
            final(self).store == old(self).store,
            final(self).timer == old(self).timer,
            final(self).session == old(self).session,
            final(self).input == old(self).input,
            final(self).attention == old(self).attention,
            final(self).stage == old(self).stage,
            final(self).renderer == if width == 0 || height == 0 {
                old(self).renderer
            } else {
                Renderer { swapchain: true, camera: old(self).renderer.camera, width, height }
            },
    {
        if width == 0 || height == 0 {
            return ;
        }
        self.renderer.swapchain = true;
        self.renderer.width = width;
        self.renderer.height = height;
    }

    /// Enters `stage`: the stage fills the store, and the session and the
    /// latch start afresh.
    pub fn push_state(&mut self, stage: Stage)
        requires
            old(self).wf(),
        ensures
            final(self).wf(),
            final(self)@ == (UniverseView {
                session: Session { score: 0 },
                input: Seq::empty(),
                stage,
                ..stage_start(stage, old(self)@)
            }),
    {
        let mut entered: Stage = stage;
        entered.init(self);
        self.stage = entered;
        self.session.clear();
        self.input.clear();
        assert(self@.input =~= Seq::<Key>::empty());
    }

    /// Notes whether the window has the focus.
    pub fn focus(&mut self, focused: bool)
        ensures
            final(self)@ == (UniverseView {
                attention: Attention { focused, hovered: old(self)@.attention.hovered },
                ..old(self)@
            }),
    {
        self.attention.focused = focused;
    }

    /// Notes whether the pointer is over the window.
    pub fn hover(&mut self, hovered: bool)
        ensures
            final(self)@ == (UniverseView {
                attention: Attention { focused: old(self)@.attention.focused, hovered },
                ..old(self)@
            }),
    {
        self.attention.hovered = hovered;
    }

    /// Notes that `key` went down or up. While the window does not have the
    /// attention of the player, the event is ignored.
    pub fn event(&mut self, key: Key, pressed: bool)
        requires
            old(self).wf(),
        ensures
            final(self).wf(),
            final(self)@ == (UniverseView {
                input: if !old(self)@.attention.spec_accepts() {
                    old(self)@.input
                } else if pressed {
                    if old(self)@.input.contains(key) {
                        old(self)@.input
                    } else {
                        old(self)@.input.push(key)
                    }
                } else {
                    old(self)@.input.filter(|k: Key| k != key)
                },
                ..old(self)@
            }),
    {
        if !self.attention.accepts() {
            return ;
        }
        if pressed {
            self.input.press(key);
        } else {
            self.input.release(key);
        }
    }

    /// Runs the eight systems in their order, with the timer as it stands,
    /// and then lets the stage act.
    pub fn simulate(&mut self)
        requires
            old(self).wf(),
        ensures
            final(self).wf(),
            exists|rolls: Seq<SpawnRoll>|
                old(self)@.rolls_fit(rolls) && final(self)@ == #[trigger] old(self)@.simulated(
                    rolls,
                ),
    {
        let delta: Fixed = self.timer.delta();
        let now: Fixed = self.timer.lifetime();
        input(&mut self.store, &self.input, delta, now);
        let ghost steered: StoreView = self.store@;
        spawn(&mut self.store, now);
        let ghost rolls: Seq<SpawnRoll> = choose|rolls: Seq<SpawnRoll>|
            {
                &&& rolls.len() == steered.rows.len()
                &&& forall|k: int|
                    0 <= k < rolls.len() ==> roll_fits(#[trigger] rolls[k], steered.rows[k])
                &&& self.store@ == spawn_spec(steered, now, rolls)
            };
        contactdamage(&mut self.store);
        enemyai(&mut self.store, delta);
        selfdamage(&mut self.store, delta);
        let gain: usize = death(&mut self.store);
        self.session.award(gain);
        camera(&mut self.store, delta);
        physics(&mut self.store, delta);
        let mut stage: Stage = self.stage;
        stage.update(self);
        assert(old(self)@.rolls_fit(rolls));
        assert(self@ == old(self)@.simulated(rolls));
    }

    /// Advances the universe by the frame that ended now.
    ///
    /// The result is that of `framed` for the time that passed and for some
    /// rolls that fit.
    pub fn update(&mut self)
        requires
            old(self).wf(),
        ensures
            final(self).wf(),
            exists|micros: i64, rolls: Seq<SpawnRoll>|
                old(self)@.ticked(micros).rolls_fit(rolls) && final(self)@ == #[trigger] old(
                    self,
                )@.framed(micros, rolls),
    {
        self.timer.update();
        let ghost micros: i64 = choose|micros: i64|
            self.timer@ == old(self)@.timer.advanced(micros);
        assert(self@ == old(self)@.ticked(micros));
        if self.input.contains(Key::R) {
            self.reset();
            proof {
                let ghost ticked = old(self)@.ticked(micros);
                let rolls = Seq::new(ticked.steered().rows.len(), |k: int| crate::systems::spawn::idle_roll(ticked.steered().rows[k]));
                assert(ticked.rolls_fit(rolls));
                assert(self@ == old(self)@.framed(micros, rolls));
            }
        } else {
            let ghost ticked = self@;
            self.simulate();
            proof {
                let rolls = choose|rolls: Seq<SpawnRoll>|
                    ticked.rolls_fit(rolls) && self@ == #[trigger] ticked.simulated(rolls);
                assert(self@ == old(self)@.framed(micros, rolls));
            }
        }
    }

    /// The status line of the current state.
    pub fn get_status(&self) -> (r: String)
        ensures
            r@ == status_text(
                mean(self@.timer.window),
                self@.session.score,
                enemies_alive(self@.store.rows),
                players_alive(self@.store.rows),
            ),
    {
        status(&self.store, &self.timer, &self.session)
    }

    /// Plans what the current state draws.
    pub fn render(&self) -> (frame: Option<Frame>)
        requires
            self.wf(),
        ensures
            planned(self@.store.rows, self.renderer, frame),
    {
        render(&self.store, &self.renderer)
    }
}

} // verus!
