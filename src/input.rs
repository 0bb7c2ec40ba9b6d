//! Input actions and axes, and the record of digital and analog triggers that feeds them.
use vstd::prelude::*;

verus! {

/// Scale of an axis value: `AXIS_ONE` stands for a fully deflected axis (1.0).
pub const AXIS_ONE: i32 = 1000;

/// Logical actions.
#[derive(Clone, Copy, Debug, PartialEq, Eq, Structural)]
pub enum Action {
    Jump,
}

/// Logical axes.
#[derive(Clone, Copy, Debug, PartialEq, Eq, Structural)]
pub enum Axis {
    Horizontal,
}

/// The state of a digital input in the current frame, in increasing order of strength.
#[derive(Clone, Copy, Debug, PartialEq, Eq, Structural)]
pub enum ActionState {
    Released,
    JustReleased,
    JustPressed,
    Held,
}

impl ActionState {
    /// Position in the order `Released < JustReleased < JustPressed < Held`.
    pub open spec fn rank(self) -> int {
        match self {
            ActionState::Released => 0,
            ActionState::JustReleased => 1,
            ActionState::JustPressed => 2,
            ActionState::Held => 3,
        }
    }

    pub open spec fn spec_is_pressed(self) -> bool {
        self == ActionState::JustPressed || self == ActionState::Held
    }

    pub fn is_pressed(self) -> (r: bool)
        ensures
            r == self.spec_is_pressed(),
    {
        match self {
            ActionState::JustPressed | ActionState::Held => true,
            _ => false,
        }
    }

    pub fn default() -> (r: ActionState)
        ensures
            r == ActionState::Released,
    {
        ActionState::Released
    }
}

/// An analog axis value in thousandths, from `-AXIS_ONE` to `AXIS_ONE`.
#[derive(Clone, Copy, Debug, PartialEq, Eq, Structural)]
pub struct AxisState(pub i32);

impl AxisState {
    pub open spec fn wf(self) -> bool {
        -AXIS_ONE <= self.0 <= AXIS_ONE
    }

    pub fn value(&self) -> (r: i32)
        ensures
            r == self.0,
    {
        self.0
    }
}

/// The input of one frame: the state of each action and the value of each axis.
#[derive(Clone, Copy, Debug, PartialEq, Eq, Structural)]
pub struct Input {
    pub jump: ActionState,
    pub horizontal: AxisState,
}

impl Input {
    pub open spec fn wf(self) -> bool {
        self.horizontal.wf()
    }

    pub fn action(&self, action: Action) -> (r: ActionState)
        ensures
            action == Action::Jump ==> r == self.jump,
    {
        match action {
            Action::Jump => self.jump,
        }
    }

    pub fn axis(&self, axis: Axis) -> (r: AxisState)
        ensures
            axis == Axis::Horizontal ==> r == self.horizontal,
    {
        match axis {
            Axis::Horizontal => self.horizontal,
        }
    }
}

/// Key code of the space bar.
pub const KEY_SPACE: u32 = 32;

/// Key code of the A key.
pub const KEY_A: u32 = 65;

/// Key code of the D key.
pub const KEY_D: u32 = 68;

/// Index of the lower face button of a gamepad.
pub const GAMEPAD_SOUTH: u32 = 0;

/// A button of a given gamepad.
#[derive(Clone, Copy, Debug, PartialEq, Eq, Structural)]
pub struct GamepadButton {
    pub gamepad: u32,
    pub button: u32,
}

/// An analog axis of a given gamepad.
#[derive(Clone, Copy, Debug, PartialEq, Eq, Structural)]
pub struct GamepadAxis {
    pub gamepad: u32,
    pub axis: u32,
}

/// Triggers whose state is an `ActionState`.
#[derive(Clone, Copy, Debug, PartialEq, Eq, Structural)]
pub enum DigitalTrigger {
    Key(u32),
    MouseButton(u16),
    GamepadButton(GamepadButton),
}

/// Triggers whose state is a value from `-AXIS_ONE` to `AXIS_ONE`.
#[derive(Clone, Copy, Debug, PartialEq, Eq, Structural)]
pub enum AnalogTrigger {
    /// A joystick axis emulated by two digital triggers: `-AXIS_ONE` while only `negative`
    /// is pressed, `AXIS_ONE` while only `positive` is, no value otherwise.
    DigitalJoystick { negative: DigitalTrigger, positive: DigitalTrigger },
    GamepadAxis(GamepadAxis),
}

/// Thresholds of a gamepad button, in thousandths: above `press` it is pressed, below
/// `release` it is released.
#[derive(Clone, Copy, Debug, PartialEq, Eq, Structural)]
pub struct ButtonSettings {
    pub press: i32,
    pub release: i32,
}

/// Thresholds of a gamepad axis, in thousandths.
#[derive(Clone, Copy, Debug, PartialEq, Eq, Structural)]
pub struct AxisSettings {
    pub positive_high: i32,
    pub positive_low: i32,
    pub negative_high: i32,
    pub negative_low: i32,
}

/// The value recorded for a gamepad axis: the first entry for it.
pub open spec fn axis_lookup(entries: Seq<(GamepadAxis, AxisState)>, a: GamepadAxis) -> Option<AxisState>
    decreases entries.len(),
{
    if entries.len() == 0 {
        None
    } else if entries[0].0 == a {
        Some(entries[0].1)
    } else {
        axis_lookup(entries.drop_first(), a)
    }
}

/// Each gamepad axis appears at most once.
pub open spec fn distinct_axes(entries: Seq<(GamepadAxis, AxisState)>) -> bool {
    forall|i: int, j: int| 0 <= i < entries.len() && 0 <= j < entries.len() && i != j ==> entries[i].0 != entries[j].0
}

/// The digital triggers seen this frame, split by state, and the last value of each
/// gamepad axis.
pub struct TriggerRecord {
    pub just_pressed: Vec<DigitalTrigger>,
    pub held: Vec<DigitalTrigger>,
    pub just_released: Vec<DigitalTrigger>,
    pub axis_values: Vec<(GamepadAxis, AxisState)>,
}

/// The state of a trigger: held first, then just pressed, then just released.
pub open spec fn trigger_state(r: TriggerRecord, t: DigitalTrigger) -> ActionState {
    if r.held@.contains(t) {
        ActionState::Held
    } else if r.just_pressed@.contains(t) {
        ActionState::JustPressed
    } else if r.just_released@.contains(t) {
        ActionState::JustReleased
    } else {
        ActionState::Released
    }
}

/// The value of an analog trigger, if it has one this frame.
pub open spec fn analog_state(r: TriggerRecord, t: AnalogTrigger) -> Option<AxisState> {
    match t {
        AnalogTrigger::DigitalJoystick { negative, positive } => {
            let n = trigger_state(r, negative).spec_is_pressed();
            let p = trigger_state(r, positive).spec_is_pressed();
            if n && !p {
                Some(AxisState((-AXIS_ONE) as i32))
            } else if !n && p {
                Some(AxisState(AXIS_ONE))
            } else {
                None
            }
        },
        AnalogTrigger::GamepadAxis(a) => match axis_lookup(r.axis_values@, a) {
            Some(v) => if v.0 == 0 {
                None
            } else {
                Some(v)
            },
            None => None,
        },
    }
}

/// The value a gamepad axis reading is recorded as: full deflection beyond the high
/// thresholds, zero inside the dead zone, the reading itself otherwise.
pub open spec fn axis_reading(state: i32, s: AxisSettings) -> i32 {
    if state > s.positive_high {
        AXIS_ONE
    } else if state < s.negative_high {
        (-AXIS_ONE) as i32
    } else if state > s.negative_low && state < s.positive_low {
        0
    } else {
        state
    }
}

fn vec_contains(v: &Vec<DigitalTrigger>, t: &DigitalTrigger) -> (r: bool)
    ensures
        r == v@.contains(*t),
{
    let mut i: usize = 0;
    while i < v.len()
        invariant
            i <= v@.len(),
            forall|j: int| 0 <= j < i ==> v@[j] != *t,
        decreases v@.len() - i,
    {
        if v[i] == *t {
            return true;
        }
        i = i + 1;
    }
    false
}

proof fn lemma_push_distinct(s: Seq<DigitalTrigger>, t: DigitalTrigger)
    requires
        s.no_duplicates(),
        !s.contains(t),
    ensures
        s.push(t).no_duplicates(),
{
    let u = s.push(t);
    assert forall|i: int, j: int| 0 <= i < u.len() && 0 <= j < u.len() && i != j implies u[i] != u[j] by {
        if i == s.len() {
            assert(u[j] == s[j]);
        } else if j == s.len() {
            assert(u[i] == s[i]);
        } else {
            assert(u[i] == s[i] && u[j] == s[j]);
        }
    }
}

fn vec_insert(v: &mut Vec<DigitalTrigger>, t: DigitalTrigger)
    ensures
        forall|x: DigitalTrigger| #[trigger] final(v)@.contains(x) <==> (old(v)@.contains(x) || x == t),
        old(v)@.no_duplicates() ==> final(v)@.no_duplicates(),
{
    if !vec_contains(v, &t) {
        v.push(t);
        proof {
            if old(v)@.no_duplicates() {
                lemma_push_distinct(old(v)@, t);
            }
            assert(final(v)@ == old(v)@.push(t));
            assert forall|x: DigitalTrigger| #[trigger] final(v)@.contains(x) <==> (old(v)@.contains(x) || x == t) by {
                if old(v)@.contains(x) {
                    let j = choose|j: int| 0 <= j < old(v)@.len() && old(v)@[j] == x;
                    assert(final(v)@[j] == x);
                }
                if x == t {
                    assert(final(v)@[old(v)@.len() as int] == x);
                }
            }
        }
    }
}

fn insert_all(held: &mut Vec<DigitalTrigger>, from: &Vec<DigitalTrigger>)
    ensures
        forall|x: DigitalTrigger| #[trigger] final(held)@.contains(x) <==> (old(held)@.contains(x)
            || from@.contains(x)),
        old(held)@.no_duplicates() ==> final(held)@.no_duplicates(),
{
    let mut i: usize = 0;
    while i < from.len()
        invariant
            i <= from@.len(),
            old(held)@.no_duplicates() ==> held@.no_duplicates(),
            forall|x: DigitalTrigger| #[trigger] held@.contains(x) <==> (old(held)@.contains(x)
                || exists|j: int| 0 <= j < i && from@[j] == x),
        decreases from@.len() - i,
    {
        let t = from[i];
        let ghost before = held@;
        vec_insert(held, t);
        proof {
            assert forall|x: DigitalTrigger| #[trigger] held@.contains(x) <==> (old(held)@.contains(x)
                || exists|j: int| 0 <= j < i + 1 && from@[j] == x) by {
                assert(held@.contains(x) <==> (before.contains(x) || x == t));
                assert(before.contains(x) <==> (old(held)@.contains(x)
                    || exists|j: int| 0 <= j < i && from@[j] == x));
                if x == t {
                    assert(from@[i as int] == x);
                }
                if exists|j: int| 0 <= j < i + 1 && from@[j] == x {
                    let j = choose|j: int| 0 <= j < i + 1 && from@[j] == x;
                    if j < i {
                        assert(exists|j: int| 0 <= j < i && from@[j] == x);
                    }
                }
            }
        }
        i = i + 1;
    }
    proof {
        assert forall|x: DigitalTrigger| #[trigger] held@.contains(x) <==> (old(held)@.contains(x)
            || from@.contains(x)) by {
            if from@.contains(x) {
                let j = choose|j: int| 0 <= j < from@.len() && from@[j] == x;
                assert(0 <= j < i && from@[j] == x);
            }
        }
    }
}

fn vec_remove_all(v: &Vec<DigitalTrigger>, t: &DigitalTrigger) -> (r: Vec<DigitalTrigger>)
    ensures
        forall|x: DigitalTrigger| #[trigger] r@.contains(x) <==> (v@.contains(x) && x != *t),
        v@.no_duplicates() ==> r@.no_duplicates(),
{
    let mut r: Vec<DigitalTrigger> = Vec::new();
    let mut i: usize = 0;
    while i < v.len()
        invariant
            i <= v@.len(),
            v@.no_duplicates() ==> r@.no_duplicates(),
            forall|x: DigitalTrigger| #[trigger] r@.contains(x) <==> (exists|j: int| 0 <= j < i && v@[j] == x && x != *t),
        decreases v@.len() - i,
    {
        let x = v[i];
        let ghost old_r = r@;
        if x != *t {
            proof {
                if v@.no_duplicates() {
                    if old_r.contains(x) {
                        let j = choose|j: int| 0 <= j < i && v@[j] == x && x != *t;
                        assert(v@[j] == v@[i as int]);
                    }
                    lemma_push_distinct(old_r, x);
                }
            }
            r.push(x);
        }
        proof {
            assert forall|y: DigitalTrigger| #[trigger] r@.contains(y) <==> (exists|j: int| 0 <= j < i + 1 && v@[j] == y && y != *t) by {
                if r@.contains(y) {
                    if old_r.contains(y) {
                        let j = choose|j: int| 0 <= j < i && v@[j] == y && y != *t;
                        assert(0 <= j < i + 1 && v@[j] == y && y != *t);
                    } else {
                        let k = choose|k: int| 0 <= k < r@.len() && r@[k] == y;
                        if k < old_r.len() {
                            assert(old_r[k] == y);
                        }
                        assert(v@[i as int] == y && y != *t);
                    }
                }
                if exists|j: int| 0 <= j < i + 1 && v@[j] == y && y != *t {
                    let j = choose|j: int| 0 <= j < i + 1 && v@[j] == y && y != *t;
                    if j < i {
                        assert(old_r.contains(y));
                        let k = choose|k: int| 0 <= k < old_r.len() && old_r[k] == y;
                        assert(r@[k] == y);
                    } else {
                        assert(r@[r@.len() - 1] == y);
                    }
                }
            }
        }
        i = i + 1;
    }
    proof {
        assert forall|x: DigitalTrigger| #[trigger] r@.contains(x) <==> (v@.contains(x) && x != *t) by {
            if v@.contains(x) && x != *t {
                let j = choose|j: int| 0 <= j < v@.len() && v@[j] == x;
                assert(0 <= j < i && v@[j] == x && x != *t);
            }
        }
    }
    r
}

impl TriggerRecord {
    /// The three sets of triggers are pairwise disjoint and hold each trigger once, and
    /// each gamepad axis has at most one value.
    pub open spec fn wf(self) -> bool {
        &&& forall|x: DigitalTrigger| #[trigger] self.held@.contains(x) ==> !self.just_pressed@.contains(x)
            && !self.just_released@.contains(x)
        &&& forall|x: DigitalTrigger| #[trigger] self.just_pressed@.contains(x) ==> !self.just_released@.contains(x)
        &&& self.just_pressed@.no_duplicates()
        &&& self.held@.no_duplicates()
        &&& self.just_released@.no_duplicates()
        &&& distinct_axes(self.axis_values@)
    }

    /// A record with no trigger and no axis value.
    pub fn new() -> (r: TriggerRecord)
        ensures
            r.wf(),
            r.just_pressed@.len() == 0,
            r.held@.len() == 0,
            r.just_released@.len() == 0,
            r.axis_values@.len() == 0,
    {
        TriggerRecord {
            just_pressed: Vec::new(),
            held: Vec::new(),
            just_released: Vec::new(),
            axis_values: Vec::new(),
        }
    }

    /// Records a press: a trigger not already held becomes just pressed (and is no longer
    /// just released); a held trigger stays held.
    pub fn press(&mut self, trigger: DigitalTrigger)
        ensures
            old(self).wf() ==> final(self).wf(),
            old(self).held@.contains(trigger) ==> *final(self) == *old(self),
            !old(self).held@.contains(trigger) ==> {
                &&& forall|x: DigitalTrigger| #[trigger] final(self).just_pressed@.contains(x) <==> (
                old(self).just_pressed@.contains(x) || x == trigger)
                &&& forall|x: DigitalTrigger| #[trigger] final(self).just_released@.contains(x) <==> (
                old(self).just_released@.contains(x) && x != trigger)
            },
            final(self).held == old(self).held,
            final(self).axis_values == old(self).axis_values,
    {
        if !vec_contains(&self.held, &trigger) {
            vec_insert(&mut self.just_pressed, trigger);
            self.just_released = vec_remove_all(&self.just_released, &trigger);
        }
    }

    /// Records a release: the trigger is neither held nor just pressed any more, and
    /// becomes just released.
    pub fn release(&mut self, trigger: DigitalTrigger)
        ensures
            old(self).wf() ==> final(self).wf(),
            forall|x: DigitalTrigger| #[trigger] final(self).held@.contains(x) <==> (
            old(self).held@.contains(x) && x != trigger),
            forall|x: DigitalTrigger| #[trigger] final(self).just_pressed@.contains(x) <==> (
            old(self).just_pressed@.contains(x) && x != trigger),
            forall|x: DigitalTrigger| #[trigger] final(self).just_released@.contains(x) <==> (
            old(self).just_released@.contains(x) || x == trigger),
            final(self).axis_values == old(self).axis_values,
    {
        self.held = vec_remove_all(&self.held, &trigger);
        self.just_pressed = vec_remove_all(&self.just_pressed, &trigger);
        vec_insert(&mut self.just_released, trigger);
    }

    /// Ends a frame: the just-pressed triggers become held, and nothing stays just pressed
    /// or just released.
    pub fn finish_frame(&mut self)
        ensures
            old(self).wf() ==> final(self).wf(),
            forall|x: DigitalTrigger| #[trigger] final(self).held@.contains(x) <==> (
            old(self).held@.contains(x) || old(self).just_pressed@.contains(x)),
            final(self).just_pressed@.len() == 0,
            final(self).just_released@.len() == 0,
            final(self).axis_values == old(self).axis_values,
    {
        insert_all(&mut self.held, &self.just_pressed);
        self.just_pressed = Vec::new();
        self.just_released = Vec::new();
    }

    /// The state of a digital trigger this frame.
    pub fn digital_trigger_state(&self, trigger: &DigitalTrigger) -> (r: ActionState)
        ensures
            r == trigger_state(*self, *trigger),
    {
        if vec_contains(&self.held, trigger) {
            ActionState::Held
        } else if vec_contains(&self.just_pressed, trigger) {
            ActionState::JustPressed
        } else if vec_contains(&self.just_released, trigger) {
            ActionState::JustReleased
        } else {
            ActionState::Released
        }
    }

    /// The value recorded for a gamepad axis.
    fn axis_value_of(&self, a: &GamepadAxis) -> (r: Option<AxisState>)
        ensures
            r == axis_lookup(self.axis_values@, *a),
    {
        let mut i: usize = 0;
        assert(self.axis_values@.skip(0) == self.axis_values@);
        while i < self.axis_values.len()
            invariant
                i <= self.axis_values@.len(),
                axis_lookup(self.axis_values@, *a) == axis_lookup(self.axis_values@.skip(i as int), *a),
            decreases self.axis_values@.len() - i,
        {
            assert(self.axis_values@.skip(i as int).drop_first() == self.axis_values@.skip(i + 1));
            let (k, v) = self.axis_values[i];
            if k == *a {
                return Some(v);
            }
            i = i + 1;
        }
        None
    }

    /// The value of an analog trigger, if it has one this frame.
    pub fn analog_trigger_state(&self, trigger: &AnalogTrigger) -> (r: Option<AxisState>)
        ensures
            r == analog_state(*self, *trigger),
    {
        match trigger {
            AnalogTrigger::DigitalJoystick { negative, positive } => {
                let n = self.digital_trigger_state(negative).is_pressed();
                let p = self.digital_trigger_state(positive).is_pressed();
                if n && !p {
                    Some(AxisState(-AXIS_ONE))
                } else if !n && p {
                    Some(AxisState(AXIS_ONE))
                } else {
                    None
                }
            },
            AnalogTrigger::GamepadAxis(a) => match self.axis_value_of(a) {
                Some(v) => if v.0 == 0 {
                    None
                } else {
                    Some(v)
                },
                None => None,
            },
        }
    }
}

proof fn lemma_lookup_wf(s: Seq<(GamepadAxis, AxisState)>)
    requires
        forall|j: int| 0 <= j < s.len() ==> (#[trigger] s[j]).1.wf(),
    ensures
        forall|a: GamepadAxis| (#[trigger] axis_lookup(s, a)) matches Some(v) ==> v.wf(),
    decreases s.len(),
{
    if s.len() > 0 {
        assert forall|j: int| 0 <= j < s.drop_first().len() implies (#[trigger] s.drop_first()[j]).1.wf() by {
            assert(s.drop_first()[j] == s[j + 1]);
        }
        lemma_lookup_wf(s.drop_first());
        assert(s[0].1.wf());
        assert forall|a: GamepadAxis| (#[trigger] axis_lookup(s, a)) matches Some(v) ==> v.wf() by {
            if s[0].0 != a {
                assert(axis_lookup(s, a) == axis_lookup(s.drop_first(), a));
            }
        }
    }
}

proof fn lemma_lookup_update(s: Seq<(GamepadAxis, AxisState)>, k: int, a: GamepadAxis, v: AxisState, b: GamepadAxis)
    requires
        0 <= k < s.len(),
        s[k].0 == a,
        forall|j: int| 0 <= j < k ==> s[j].0 != a,
    ensures
        axis_lookup(s.update(k, (a, v)), b) == if b == a {
            Some(v)
        } else {
            axis_lookup(s, b)
        },
    decreases k,
{
    let t = s.update(k, (a, v));
    if k > 0 {
        assert(t.drop_first() == s.drop_first().update(k - 1, (a, v)));
        assert forall|j: int| 0 <= j < k - 1 implies s.drop_first()[j].0 != a by {
            assert(s.drop_first()[j] == s[j + 1]);
        }
        lemma_lookup_update(s.drop_first(), k - 1, a, v, b);
        assert(t[0] == s[0]);
    } else {
        assert(t.drop_first() == s.drop_first());
        assert(t[0] == (a, v));
    }
}

proof fn lemma_lookup_push(s: Seq<(GamepadAxis, AxisState)>, a: GamepadAxis, v: AxisState, b: GamepadAxis)
    requires
        forall|j: int| 0 <= j < s.len() ==> s[j].0 != a,
    ensures
        axis_lookup(s.push((a, v)), b) == if b == a {
            Some(v)
        } else {
            axis_lookup(s, b)
        },
    decreases s.len(),
{
    let t = s.push((a, v));
    if s.len() > 0 {
        assert(t.drop_first() == s.drop_first().push((a, v)));
        assert forall|j: int| 0 <= j < s.drop_first().len() implies s.drop_first()[j].0 != a by {
            assert(s.drop_first()[j] == s[j + 1]);
        }
        lemma_lookup_push(s.drop_first(), a, v, b);
        assert(t[0] == s[0]);
        assert(s[0].0 != a);
    } else {
        assert(t.drop_first().len() == 0);
        assert(axis_lookup(t.drop_first(), b) is None);
        assert(axis_lookup(s, b) is None);
        assert(t[0] == (a, v));
    }
}

impl TriggerRecord {
    /// Records the value of a gamepad axis, replacing the one it had.
    pub fn set_axis_value(&mut self, a: GamepadAxis, v: AxisState)
        ensures
            old(self).wf() ==> final(self).wf(),
            forall|b: GamepadAxis| #[trigger] axis_lookup(final(self).axis_values@, b) == if b == a {
                Some(v)
            } else {
                axis_lookup(old(self).axis_values@, b)
            },
            final(self).just_pressed == old(self).just_pressed,
            final(self).held == old(self).held,
            final(self).just_released == old(self).just_released,
    {
        let mut i: usize = 0;
        while i < self.axis_values.len()
            invariant
                i <= self.axis_values@.len(),
                *self == *old(self),
                forall|j: int| 0 <= j < i ==> self.axis_values@[j].0 != a,
            decreases self.axis_values@.len() - i,
        {
            if self.axis_values[i].0 == a {
                let ghost s = self.axis_values@;
                self.axis_values.set(i, (a, v));
                proof {
                    assert(self.axis_values@ == s.update(i as int, (a, v)));
                    assert forall|b: GamepadAxis| #[trigger] axis_lookup(self.axis_values@, b) == if b == a {
                        Some(v)
                    } else {
                        axis_lookup(s, b)
                    } by {
                        lemma_lookup_update(s, i as int, a, v, b);
                    }
                }
                return;
            }
            i = i + 1;
        }
        let ghost s = self.axis_values@;
        self.axis_values.push((a, v));
        proof {
            assert forall|b: GamepadAxis| #[trigger] axis_lookup(self.axis_values@, b) == if b == a {
                Some(v)
            } else {
                axis_lookup(s, b)
            } by {
                lemma_lookup_push(s, a, v, b);
            }
        }
    }

    /// A gamepad button reading in thousandths: above the press threshold a button not held
    /// is pressed; below the release threshold a held button is released.
    pub fn update_gamepad_button(&mut self, b: GamepadButton, state: i32, settings: &ButtonSettings)
        ensures
            old(self).wf() ==> final(self).wf(),
            ({
                let t = DigitalTrigger::GamepadButton(b);
                if state > settings.press && !old(self).held@.contains(t) {
                    &&& forall|x: DigitalTrigger| #[trigger] final(self).just_pressed@.contains(x) <==> (
                    old(self).just_pressed@.contains(x) || x == t)
                    &&& forall|x: DigitalTrigger| #[trigger] final(self).just_released@.contains(x) <==> (
                    old(self).just_released@.contains(x) && x != t)
                    &&& final(self).held == old(self).held
                } else if state <= settings.press && state < settings.release && old(self).held@.contains(t) {
                    &&& forall|x: DigitalTrigger| #[trigger] final(self).held@.contains(x) <==> (
                    old(self).held@.contains(x) && x != t)
                    &&& forall|x: DigitalTrigger| #[trigger] final(self).just_pressed@.contains(x) <==> (
                    old(self).just_pressed@.contains(x) && x != t)
                    &&& forall|x: DigitalTrigger| #[trigger] final(self).just_released@.contains(x) <==> (
                    old(self).just_released@.contains(x) || x == t)
                } else {
                    *final(self) == *old(self)
                }
            }),
            final(self).axis_values == old(self).axis_values,
    {
        let trigger = DigitalTrigger::GamepadButton(b);
        if state > settings.press {
            if !vec_contains(&self.held, &trigger) {
                self.press(trigger);
            }
        } else if state < settings.release {
            if vec_contains(&self.held, &trigger) {
                self.release(trigger);
            }
        }
    }

    /// A gamepad axis reading in thousandths, recorded after the thresholds are applied.
    pub fn update_gamepad_axis(&mut self, a: GamepadAxis, state: i32, settings: &AxisSettings)
        requires
            -AXIS_ONE <= state <= AXIS_ONE,
        ensures
            old(self).wf() ==> final(self).wf(),
            forall|b: GamepadAxis| #[trigger] axis_lookup(final(self).axis_values@, b) == if b == a {
                Some(AxisState(axis_reading(state, *settings)))
            } else {
                axis_lookup(old(self).axis_values@, b)
            },
            final(self).just_pressed == old(self).just_pressed,
            final(self).held == old(self).held,
            final(self).just_released == old(self).just_released,
    {
        let val = if state > settings.positive_high {
            AXIS_ONE
        } else if state < settings.negative_high {
            -AXIS_ONE
        } else if state > settings.negative_low && state < settings.positive_low {
            0
        } else {
            state
        };
        self.set_axis_value(a, AxisState(val));
    }
}

/// A binding from input sources to an action: a primary trigger and an optional secondary.
#[derive(Clone, Copy, Debug, PartialEq, Eq, Structural)]
pub struct ActionBinding {
    pub primary: DigitalTrigger,
    pub secondary: Option<DigitalTrigger>,
}

impl ActionBinding {
    pub fn new(primary: DigitalTrigger, secondary: Option<DigitalTrigger>) -> (r: ActionBinding)
        ensures
            r.primary == primary,
            r.secondary == secondary,
    {
        ActionBinding { primary, secondary }
    }
}

/// A binding from input sources to an axis: a primary trigger and an optional secondary.
#[derive(Clone, Copy, Debug, PartialEq, Eq, Structural)]
pub struct AxisBinding {
    pub primary: AnalogTrigger,
    pub secondary: Option<AnalogTrigger>,
}

impl AxisBinding {
    pub fn new(primary: AnalogTrigger, secondary: Option<AnalogTrigger>) -> (r: AxisBinding)
        ensures
            r.primary == primary,
            r.secondary == secondary,
    {
        AxisBinding { primary, secondary }
    }
}

/// The binding of every action and every axis.
#[derive(Clone, Copy, Debug, PartialEq, Eq, Structural)]
pub struct InputMappings {
    pub jump: ActionBinding,
    pub horizontal: AxisBinding,
}

impl InputMappings {
    /// Jump on the space bar or the lower face button of the first gamepad; steer with A
    /// and D.
    pub fn default() -> (r: InputMappings)
        ensures
            r.jump.primary == DigitalTrigger::Key(KEY_SPACE),
            r.jump.secondary == Some(
                DigitalTrigger::GamepadButton(GamepadButton { gamepad: 0, button: GAMEPAD_SOUTH }),
            ),
            r.horizontal.primary == (AnalogTrigger::DigitalJoystick {
                negative: DigitalTrigger::Key(KEY_A),
                positive: DigitalTrigger::Key(KEY_D),
            }),
            r.horizontal.secondary is None,
    {
        InputMappings {
            jump: ActionBinding::new(
                DigitalTrigger::Key(KEY_SPACE),
                Some(DigitalTrigger::GamepadButton(GamepadButton { gamepad: 0, button: GAMEPAD_SOUTH })),
            ),
            horizontal: AxisBinding::new(
                AnalogTrigger::DigitalJoystick {
                    negative: DigitalTrigger::Key(KEY_A),
                    positive: DigitalTrigger::Key(KEY_D),
                },
                None,
            ),
        }
    }

    pub fn action(&self, action: Action) -> (r: ActionBinding)
        ensures
            action == Action::Jump ==> r == self.jump,
    {
        match action {
            Action::Jump => self.jump,
        }
    }

    pub fn axis(&self, axis: Axis) -> (r: AxisBinding)
        ensures
            axis == Axis::Horizontal ==> r == self.horizontal,
    {
        match axis {
            Axis::Horizontal => self.horizontal,
        }
    }
}

/// The stronger of two action states.
pub open spec fn stronger(a: ActionState, b: ActionState) -> ActionState {
    if a.rank() >= b.rank() {
        a
    } else {
        b
    }
}

/// The state of an action: the stronger of its triggers' states.
pub open spec fn action_state(r: TriggerRecord, b: ActionBinding) -> ActionState {
    match b.secondary {
        Some(s) => stronger(trigger_state(r, b.primary), trigger_state(r, s)),
        None => trigger_state(r, b.primary),
    }
}

/// The value of an axis: the primary trigger's, else the secondary's, else zero.
pub open spec fn axis_state(r: TriggerRecord, b: AxisBinding) -> AxisState {
    match analog_state(r, b.primary) {
        Some(v) => v,
        None => match b.secondary {
            Some(s) => match analog_state(r, s) {
                Some(v) => v,
                None => AxisState(0),
            },
            None => AxisState(0),
        },
    }
}

fn stronger_of(a: ActionState, b: ActionState) -> (r: ActionState)
    ensures
        r == stronger(a, b),
{
    let ra: u8 = match a {
        ActionState::Released => 0,
        ActionState::JustReleased => 1,
        ActionState::JustPressed => 2,
        ActionState::Held => 3,
    };
    let rb: u8 = match b {
        ActionState::Released => 0,
        ActionState::JustReleased => 1,
        ActionState::JustPressed => 2,
        ActionState::Held => 3,
    };
    if ra >= rb {
        a
    } else {
        b
    }
}

/// The bindings in use and the record of triggers they read.
pub type InputBinder = InputMapper;

/// The bindings in use and the record of triggers they read.
pub struct InputMapper {
    pub mappings: InputMappings,
    pub trigger_record: TriggerRecord,
}

impl InputMapper {
    pub fn new(mappings: InputMappings) -> (r: InputMapper)
        ensures
            r.mappings == mappings,
            r.trigger_record.wf(),
            r.trigger_record.just_pressed@.len() == 0,
            r.trigger_record.held@.len() == 0,
            r.trigger_record.just_released@.len() == 0,
            r.trigger_record.axis_values@.len() == 0,
    {
        InputMapper { mappings, trigger_record: TriggerRecord::new() }
    }

    /// Whether the axis values recorded are within range.
    pub open spec fn wf(self) -> bool {
        forall|j: int| 0 <= j < self.trigger_record.axis_values@.len() ==> (
        #[trigger] self.trigger_record.axis_values@[j]).1.wf()
    }

    /// The value of an axis this frame.
    pub fn axis_value(&self, axis: Axis) -> (r: AxisState)
        ensures
            axis == Axis::Horizontal ==> r == axis_state(self.trigger_record, self.mappings.horizontal),
            self.wf() ==> r.wf(),
    {
        let b = self.mappings.axis(axis);
        proof {
            if self.wf() {
                lemma_lookup_wf(self.trigger_record.axis_values@);
            }
        }
        match self.trigger_record.analog_trigger_state(&b.primary) {
            Some(v) => v,
            None => match b.secondary {
                Some(s) => match self.trigger_record.analog_trigger_state(&s) {
                    Some(v) => v,
                    None => AxisState(0),
                },
                None => AxisState(0),
            },
        }
    }

    /// The state of an action this frame.
    pub fn action_value(&self, action: Action) -> (r: ActionState)
        ensures
            action == Action::Jump ==> r == action_state(self.trigger_record, self.mappings.jump),
    {
        let b = self.mappings.action(action);
        let primary = self.trigger_record.digital_trigger_state(&b.primary);
        match b.secondary {
            Some(s) => stronger_of(primary, self.trigger_record.digital_trigger_state(&s)),
            None => primary,
        }
    }

    /// The input of this frame, as the bindings read it.
    pub fn upload_input(&self) -> (r: Input)
        ensures
            r.jump == action_state(self.trigger_record, self.mappings.jump),
            r.horizontal == axis_state(self.trigger_record, self.mappings.horizontal),
            self.wf() ==> r.wf(),
    {
        Input { jump: self.action_value(Action::Jump), horizontal: self.axis_value(Axis::Horizontal) }
    }

    /// Ends the frame of the trigger record.
    pub fn update_trigger_record(&mut self)
        ensures
            old(self).trigger_record.wf() ==> final(self).trigger_record.wf(),
            forall|x: DigitalTrigger| #[trigger] final(self).trigger_record.held@.contains(x) <==> (
            old(self).trigger_record.held@.contains(x) || old(self).trigger_record.just_pressed@.contains(x)),
            final(self).trigger_record.just_pressed@.len() == 0,
            final(self).trigger_record.just_released@.len() == 0,
            final(self).trigger_record.axis_values == old(self).trigger_record.axis_values,
            final(self).mappings == old(self).mappings,
    {
        self.trigger_record.finish_frame();
    }
}

} // verus!
