//! Who is responsible for the duty in the week that holds a given day.

use crate::calendar::{day_of, iso_week0_of, Day, Instant};
use crate::config::Config;
use vstd::arithmetic::div_mod::lemma_mod_equivalence;
use vstd::prelude::*;

verus! {

/// The place in the list of members that is on duty in the week numbered
/// `week0`: one past the week number, wrapped round the list.
pub open spec fn rotation_index(week0: nat, members: nat) -> int {
    (1 + week0) as int % members as int
}

/// The member on duty in the week numbered `week0`.
pub open spec fn rotation_member(flatmates: Seq<i64>, week0: nat) -> i64 {
    flatmates[rotation_index(week0, flatmates.len())]
}

/// The member on duty in the ISO week that holds `day`.
pub open spec fn member_on(flatmates: Seq<i64>, day: int) -> i64 {
    rotation_member(flatmates, iso_week0_of(day))
}

/// The member on duty in the week numbered `week0`.
pub fn member_for_week(config: &Config, week0: u32) -> (id: i64)
    ensures
        id == rotation_member(config@.flatmates, week0 as nat),
        config@.flatmates.contains(id),
{
    let flatmates = config.flatmates();
    let index = ((1 + week0 as u64) % (flatmates.len() as u64)) as usize;
    flatmates[index]
}

/// The member on duty in the ISO week that holds `day`. The same day and the
/// same settings always give the same member.
pub fn member_for(config: &Config, day: Day) -> (id: i64)
    ensures
        id == member_on(config@.flatmates, day@),
        config@.flatmates.contains(id),
{
    member_for_week(config, day.iso_week0())
}

/// The member on duty on the day that holds `now`.
pub fn today_food_master_id(config: &Config, now: Instant) -> (id: i64)
    ensures
        id == member_on(config@.flatmates, day_of(now@)),
{
    member_for(config, now.day())
}

/// The member on duty on the day after the one that holds `now`, who is
/// another one than today's where a new week begins tomorrow.
pub fn tomorrow_food_master_id(config: &Config, now: Instant) -> (id: i64)
    ensures
        id == member_on(config@.flatmates, day_of(now@) + 1),
{
    member_for(config, now.tomorrow())
}

/// From one week to the next the duty moves on by one place, so with more
/// than one member it never stays at the same place.
pub proof fn lemma_rotation_advances(week0: nat, members: nat)
    requires
        members > 0,
    ensures
        0 <= rotation_index(week0, members) < members,
        rotation_index(week0 + 1, members) == (rotation_index(week0, members) + 1) % (
        members as int),
        members > 1 ==> rotation_index(week0 + 1, members) != rotation_index(week0, members),
{
    let n = members as int;
    let a = (1 + week0) as int;
    assert(a % n + 1 == (a + 1) % n || a % n + 1 == n && (a + 1) % n == 0) by (nonlinear_arith)
        requires
            n > 0,
            a >= 0,
    ;
    assert(0 <= a % n < n) by (nonlinear_arith)
        requires
            n > 0,
    ;
    if a % n + 1 == n {
        assert((a % n + 1) % n == 0) by (nonlinear_arith)
            requires
                a % n + 1 == n,
                n > 0,
        ;
    } else {
        assert((a % n + 1) % n == a % n + 1) by (nonlinear_arith)
            requires
                0 <= a % n + 1 < n,
        ;
    }
}

/// Two weeks put the duty at the same place exactly when their numbers
/// differ by a multiple of the number of members.
pub proof fn lemma_rotation_repeats(week_a: nat, week_b: nat, members: nat)
    requires
        members > 0,
    ensures
        rotation_index(week_a, members) == rotation_index(week_b, members) <==> (week_a - week_b)
            % (members as int) == 0,
{
    lemma_mod_equivalence((1 + week_a) as int, (1 + week_b) as int, members as int);
}

/// In consecutive weeks two different members are on duty, whenever each
/// member differs from the one that follows in the list, the first member
/// following the last.
pub proof fn lemma_consecutive_weeks_differ(flatmates: Seq<i64>, week0: nat)
    requires
        flatmates.len() > 1,
        forall|i: int|
            0 <= i < flatmates.len() ==> flatmates[i] != #[trigger] flatmates[(i + 1) % (
            flatmates.len() as int)],
    ensures
        rotation_member(flatmates, week0) != rotation_member(flatmates, week0 + 1),
{
    lemma_rotation_advances(week0, flatmates.len());
    let i = rotation_index(week0, flatmates.len());
    assert(flatmates[i] != flatmates[(i + 1) % (flatmates.len() as int)]);
}

/// Where no flatmate is named twice, two days have the same member on duty
/// exactly when the numbers of their ISO weeks differ by a multiple of the
/// number of flatmates. So the member changes from one week to the next
/// within a year; at the turn of the year, where the numbers start anew, it
/// changes unless the last number of the old year is such a multiple.
pub proof fn lemma_same_member_same_place(flatmates: Seq<i64>, day_a: int, day_b: int)
    requires
        flatmates.len() > 0,
        flatmates.no_duplicates(),
    ensures
        member_on(flatmates, day_a) == member_on(flatmates, day_b) <==> (iso_week0_of(day_a)
            - iso_week0_of(day_b)) % (flatmates.len() as int) == 0,
{
    lemma_rotation_repeats(iso_week0_of(day_a), iso_week0_of(day_b), flatmates.len());
    lemma_rotation_advances(iso_week0_of(day_a), flatmates.len());
    lemma_rotation_advances(iso_week0_of(day_b), flatmates.len());
}

} // verus!
