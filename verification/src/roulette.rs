//! The revolver: a cylinder of chambers and the cursor that consumes them.

use crate::chambers::{count_empty, count_loaded, fill, is_selection, pattern, place};
use crate::chambers::{lemma_count_push, lemma_count_zero, lemma_loaded_and_empty};
use crate::chambers::lemma_pattern_count;
use crate::config::{ConfigError, RouletteConfig};
use crate::random::{draw_ratio, sample_indices};
use vstd::prelude::*;

verus! {

/// Result of firing the revolver.
#[derive(Debug, Clone, Copy, PartialEq, Eq, Structural)]
pub enum FireResult {
    /// The chamber was empty.
    Empty,
    /// The chamber was loaded with a bullet.
    Bullet,
    /// The gun got jammed.
    Jammed,
    /// No more bullets left.
    NoBullets,
}

/// What a chamber gives when it is fired.
pub open spec fn shot(loaded: bool) -> FireResult {
    if loaded {
        FireResult::Bullet
    } else {
        FireResult::Empty
    }
}

/// The revolver as a mathematical value.
///
/// `contents[i]` tells whether chamber `i` is loaded. The chambers before
/// `position` are spent; the chamber at `position` is fired next.
pub struct Revolver {
    pub config: RouletteConfig,
    pub contents: Seq<bool>,
    pub position: nat,
}

impl Revolver {
    /// The revolver has the chambers and bullets that its valid
    /// configuration asks for, and its cursor lies within the cylinder.
    pub open spec fn wf(self) -> bool {
        &&& self.config.valid()
        &&& self.contents.len() == self.config.chambers
        &&& count_loaded(self.contents) == self.config.bullets
        &&& self.position <= self.contents.len()
    }

    /// The chambers that are not spent.
    pub open spec fn remaining(self) -> Seq<bool> {
        self.contents.skip(self.position as int)
    }

    /// Number of loaded chambers that are not spent.
    pub open spec fn filled(self) -> nat {
        count_loaded(self.remaining())
    }

    /// Number of chambers that are not spent.
    pub open spec fn left(self) -> nat {
        (self.contents.len() - self.position) as nat
    }

    /// The revolver with its cursor moved past the current chamber.
    pub open spec fn advanced(self) -> Revolver {
        Revolver { position: self.position + 1, ..self }
    }

    /// One attempt to fire, given whether the gun jams.
    ///
    /// With no loaded chamber left the attempt reports `NoBullets`, whatever
    /// `jammed` says. Otherwise a jam reports `Jammed`. In both cases the
    /// revolver stays as it is. Otherwise the current chamber is consumed and
    /// reported.
    pub open spec fn fire(self, jammed: bool) -> (Revolver, FireResult) {
        if self.filled() == 0 {
            (self, FireResult::NoBullets)
        } else if jammed {
            (self, FireResult::Jammed)
        } else {
            (self.advanced(), shot(self.contents[self.position as int]))
        }
    }

    /// The revolver reloaded with bullets in exactly the picked chambers.
    pub open spec fn loaded_with(self, picked: Seq<usize>) -> Revolver {
        Revolver {
            config: self.config,
            contents: pattern(self.config.chambers as nat, picked),
            position: 0,
        }
    }

    /// `picked` can be loaded: it names as many distinct chambers as the
    /// configuration has bullets.
    pub open spec fn accepts(self, picked: Seq<usize>) -> bool {
        &&& picked.len() == self.config.bullets
        &&& is_selection(picked, self.config.chambers as nat)
    }
}

/// `fired` is what one attempt to fire `before` can give, and `after` is the
/// revolver that it leaves. The jam is drawn with the configured probability,
/// so a chance of zero never jams and a chance of one always does.
pub open spec fn fires(before: Revolver, after: Revolver, fired: FireResult) -> bool {
    let chance = before.config.jam_probability;
    &&& (after, fired) == before.fire(true) || (after, fired) == before.fire(false)
    &&& chance.is_never() ==> (after, fired) == before.fire(false)
    &&& chance.is_certain() ==> (after, fired) == before.fire(true)
}

/// With a loaded chamber left, a chamber is left.
pub proof fn lemma_filled_means_left(revolver: Revolver)
    requires
        revolver.position <= revolver.contents.len(),
    ensures
        revolver.filled() <= revolver.left(),
        revolver.filled() > 0 ==> revolver.position < revolver.contents.len(),
{
    broadcast use vstd::multiset::group_multiset_axioms;

    vstd::seq_lib::to_multiset_len(revolver.remaining());
}

/// A cylinder with `chambers` chambers, of which `bullets` are loaded.
///
/// Which ones is drawn at random, unless every chamber is to be loaded:
/// then there is nothing to draw.
fn shuffled(chambers: usize, bullets: usize) -> (contents: Vec<bool>)
    requires
        bullets <= chambers,
    ensures
        contents@.len() == chambers,
        count_loaded(contents@) == bullets,
{
    if bullets == chambers {
        fill(chambers)
    } else {
        let picked = sample_indices(chambers, bullets);
        proof {
            lemma_pattern_count(chambers as nat, picked@);
        }
        place(chambers, picked.as_slice()).unwrap()
    }
}

/// A Russian Roulette game.
#[derive(Debug)]
pub struct Roulette {
    /// Configuration for the game.
    config: RouletteConfig,
    /// An array of boolean values representing the contents of the chambers. `true` means the chamber is loaded with a bullet, `false` means it is empty.
    contents: Vec<bool>,
    /// The current chamber index.
    position: usize,
}

impl View for Roulette {
    type V = Revolver;

    closed spec fn view(&self) -> Revolver {
        Revolver {
            config: self.config,
            contents: self.contents@,
            position: self.position as nat,
        }
    }
}

impl Clone for Roulette {
    fn clone(&self) -> (copy: Roulette)
        ensures
            copy@ == self@,
    {
        proof {
            use_type_invariant(self);
        }
        Roulette {
            config: self.config,
            contents: self.contents.clone(),
            position: self.position,
        }
    }
}

impl RouletteConfig {
    /// Starts a new game of Russian Roulette.
    ///
    /// Fails with the first constraint that the configuration breaks. Else
    /// the game starts with a freshly loaded revolver.
    pub fn start(self) -> (started: Result<Roulette, ConfigError>)
        ensures
            match self.first_violation() {
                Some(broken) => started == Err::<Roulette, ConfigError>(broken),
                None => started matches Ok(roulette) && roulette@.config == self
                    && roulette@.position == 0 && roulette@.wf(),
            },
    {
        match self.validate() {
            Err(broken) => Err(broken),
            Ok(config) => {
                let contents = shuffled(config.chambers, config.bullets);
                Ok(Roulette { config, contents, position: 0 })
            },
        }
    }

    /// Get the number of bullets and chambers.
    pub fn info(&self) -> (counts: (usize, usize))
        ensures
            counts == (self.bullets, self.chambers),
    {
        (self.bullets, self.chambers)
    }
}

impl Roulette {
    #[verifier::type_invariant]
    spec fn well_formed(self) -> bool {
        self@.wf()
    }

    /// Reload the revolver: every chamber is emptied, the cursor goes back to
    /// the first chamber, and as many chambers as the configuration has
    /// bullets are picked at random and loaded.
    pub fn reload(&mut self)
        ensures
            final(self)@.wf(),
            final(self)@.config == old(self)@.config,
            final(self)@.position == 0,
            final(self)@.contents.len() == old(self)@.config.chambers,
            count_loaded(final(self)@.contents) == old(self)@.config.bullets,
            count_empty(final(self)@.contents) == old(self)@.config.chambers - old(self)@.config.bullets,
            final(self)@.filled() == old(self)@.config.bullets,
    {
        proof {
            use_type_invariant(&*self);
        }
        let contents = shuffled(self.config.chambers, self.config.bullets);
        proof {
            lemma_loaded_and_empty(contents@);
        }
        self.position = 0;
        self.contents = contents;
        assert(self@.remaining() =~= self@.contents);
    }

    /// Reloads the revolver with bullets in exactly the chambers that
    /// `picked` names, and puts the cursor back to the first chamber.
    ///
    /// This happens, and `true` is returned, when `picked` names as many
    /// distinct chambers as the configuration has bullets. Otherwise the
    /// revolver stays as it is and `false` is returned.
    pub fn load(&mut self, picked: &[usize]) -> (loaded: bool)
        ensures
            final(self)@.wf(),
            loaded == old(self)@.accepts(picked@),
            final(self)@ == if loaded {
                old(self)@.loaded_with(picked@)
            } else {
                old(self)@
            },
    {
        proof {
            use_type_invariant(&*self);
        }
        if picked.len() != self.config.bullets {
            return false;
        }
        match place(self.config.chambers, picked) {
            Some(contents) => {
                proof {
                    lemma_pattern_count(self.config.chambers as nat, picked@);
                }
                self.position = 0;
                self.contents = contents;
                true
            },
            None => false,
        }
    }

    /// Get the number of bullets and chambers.
    pub fn info(&self) -> (counts: (usize, usize))
        ensures
            counts == (self@.config.bullets, self@.config.chambers),
    {
        self.config.info()
    }

    /// The configuration of the game, which is valid.
    pub fn config(&self) -> (config: RouletteConfig)
        ensures
            config == self@.config,
            config.valid(),
    {
        proof {
            use_type_invariant(self);
        }
        self.config
    }

    /// What each chamber holds: `true` for a bullet.
    pub fn contents(&self) -> (contents: Vec<bool>)
        ensures
            contents@ == self@.contents,
            contents@.len() == self@.config.chambers,
            count_loaded(contents@) == self@.config.bullets,
    {
        proof {
            use_type_invariant(self);
        }
        self.contents.clone()
    }

    /// The index of the chamber that is fired next, which is the number of
    /// chambers that are spent.
    pub fn position(&self) -> (position: usize)
        ensures
            position == self@.position,
            position <= self@.config.chambers,
    {
        proof {
            use_type_invariant(self);
        }
        self.position
    }

    /// Generate a random mute time and the time until which the user will be
    /// muted, counted from `now`.
    pub fn random_mute_until(&self, now: u64) -> (mute: (u64, u64))
        requires
            now + self@.config.max_mute_time <= u64::MAX,
        ensures
            self@.config.min_mute_time <= mute.0 <= self@.config.max_mute_time,
            mute.1 == now + mute.0,
    {
        proof {
            use_type_invariant(self);
        }
        self.config.random_mute_until(now)
    }

    /// Try to fire the current chamber.
    ///
    /// - If no loaded chamber is left, return `NoBullets`; the gun is not
    ///   touched and no jam is drawn
    /// - Otherwise, if the gun jams, return `Jammed`; the chamber is not
    ///   consumed
    /// - Otherwise consume the chamber and return `Bullet` if it was loaded
    ///   and `Empty` if it was not
    ///
    /// Whether the gun jams is drawn with the configured probability: never
    /// when that is zero, always when it is one.
    pub fn fire(&mut self) -> (result: FireResult)
        ensures
            final(self)@.wf(),
            fires(old(self)@, final(self)@, result),
    {
        proof {
            use_type_invariant(&*self);
        }
        if self.peek().0 == 0 {
            // No filled chambers left
            return FireResult::NoBullets;
        }
        // Check if the gun is jammed
        let chance = self.config.jam_probability;
        let jammed = draw_ratio(chance.numerator(), chance.denominator());
        if jammed {
            return FireResult::Jammed;
        }
        self.consume()
    }

    /// Try to fire the current chamber, given whether the gun jams.
    ///
    /// This is [`Roulette::fire`] with the draw made by the caller.
    pub fn fire_with(&mut self, jammed: bool) -> (result: FireResult)
        ensures
            final(self)@.wf(),
            (final(self)@, result) == old(self)@.fire(jammed),
    {
        proof {
            use_type_invariant(&*self);
        }
        if self.peek().0 == 0 {
            return FireResult::NoBullets;
        }
        if jammed {
            return FireResult::Jammed;
        }
        self.consume()
    }

    /// Consumes the current chamber and reports what it held.
    fn consume(&mut self) -> (result: FireResult)
        requires
            old(self)@.filled() > 0,
        ensures
            final(self)@.wf(),
            final(self)@ == old(self)@.advanced(),
            result == shot(old(self)@.contents[old(self)@.position as int]),
    {
        proof {
            use_type_invariant(&*self);
            lemma_filled_means_left(self@);
        }
        let result = self.contents[self.position];
        self.position = self.position + 1;
        if result {
            FireResult::Bullet
        } else {
            FireResult::Empty
        }
    }

    /// Peek the left-over chambers, returning count of filled and left chambers.
    pub fn peek(&self) -> (counts: (usize, usize))
        ensures
            counts.0 == self@.filled(),
            counts.1 == self@.left(),
    {
        proof {
            use_type_invariant(self);
        }
        let total = self.contents.len();
        let mut filled: usize = 0;
        let mut index: usize = self.position;
        proof {
            let none = self.contents@.subrange(self.position as int, self.position as int);
            assert(count_loaded(none) == 0) by {
                lemma_count_zero(none);
            }
        }
        while index < total
            invariant
                total == self.contents@.len(),
                self.position <= index <= total,
                filled <= index - self.position,
                filled == count_loaded(self.contents@.subrange(self.position as int, index as int)),
            decreases total - index,
        {
            proof {
                let seen = self.contents@.subrange(self.position as int, index as int);
                lemma_count_push(seen, self.contents@[index as int]);
                assert(seen.push(self.contents@[index as int]) =~= self.contents@.subrange(
                    self.position as int,
                    index + 1,
                ));
            }
            if self.contents[index] {
                filled = filled + 1;
            }
            index = index + 1;
        }
        assert(self.contents@.subrange(self.position as int, total as int) =~= self@.remaining());
        let left = total - self.position;
        (filled, left)
    }
}

} // verus!
