//! Electronic control unit state of the simulated machine.
use vstd::prelude::*;

verus! {

/// Number of actuators whose encoders the state tracks.
pub const ACTUATOR_COUNT: usize = 8;

/// Speed and position of each actuator encoder, and the motion lock.
pub struct EcuState {
    /// First derivative of the encoder position.
    speed: [i16; 8],
    /// Position of encoder.
    position: [u32; 8],
    /// Motion lock.
    motion_lock: bool,
}

impl EcuState {
    /// Whether motion is locked.
    pub closed spec fn spec_locked(&self) -> bool {
        self.motion_lock
    }

    /// Speed of each actuator.
    pub closed spec fn spec_speeds(&self) -> Seq<i16> {
        self.speed@
    }

    /// Position of each actuator.
    pub closed spec fn spec_positions(&self) -> Seq<u32> {
        self.position@
    }

    /// Stops every actuator and locks motion.
    pub fn lock(&mut self)
        ensures
            final(self).spec_speeds().len() == 8,
            forall|i: int| 0 <= i < 8 ==> final(self).spec_speeds()[i] == 0,
            final(self).spec_positions() == old(self).spec_positions(),
            final(self).spec_locked(),
    {
        let mut i: usize = 0;
        while i < ACTUATOR_COUNT
            invariant
                i <= ACTUATOR_COUNT,
                forall|j: int| 0 <= j < i ==> self.speed@[j] == 0,
                self.position == old(self).position,
            decreases ACTUATOR_COUNT - i,
        {
            self.speed[i] = 0;
            i = i + 1;
        }
        self.motion_lock = true;
    }

    /// Releases the motion lock; speeds and positions stay as they are.
    #[inline]
    pub fn unlock(&mut self)
        ensures
            final(self).spec_speeds() == old(self).spec_speeds(),
            final(self).spec_positions() == old(self).spec_positions(),
            !final(self).spec_locked(),
    {
        self.motion_lock = false;
    }

    #[inline]
    pub fn is_locked(&self) -> (locked: bool)
        ensures
            locked == self.spec_locked(),
    {
        self.motion_lock
    }

    /// Speed of the actuator with the given index.
    #[inline]
    pub fn speed(&self, actuator: usize) -> (speed: i16)
        requires
            actuator < ACTUATOR_COUNT,
        ensures
            speed == self.spec_speeds()[actuator as int],
    {
        self.speed[actuator]
    }

    /// Position of the actuator with the given index.
    #[inline]
    pub fn position(&self, actuator: usize) -> (position: u32)
        requires
            actuator < ACTUATOR_COUNT,
        ensures
            position == self.spec_positions()[actuator as int],
    {
        self.position[actuator]
    }

    /// Sets the position of the actuator with the given index.
    #[inline]
    pub fn set_position(&mut self, actuator: usize, position: u32)
        requires
            actuator < ACTUATOR_COUNT,
        ensures
            final(self).spec_positions() == old(self).spec_positions().update(actuator as int, position),
            final(self).spec_speeds() == old(self).spec_speeds(),
            final(self).spec_locked() == old(self).spec_locked(),
    {
        self.position[actuator] = position;
    }
}

impl Default for EcuState {
    fn default() -> (state: Self)
        ensures
            forall|i: int| 0 <= i < 8 ==> state.spec_speeds()[i] == 0 && state.spec_positions()[i] == 0,
            !state.spec_locked(),
    {
        Self { speed: [0i16; 8], position: [0u32; 8], motion_lock: false }
    }
}

} // verus!
