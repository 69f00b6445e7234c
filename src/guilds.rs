use vstd::prelude::*;

verus! {

/// Whether the bot is to leave a community it was added to: it stays only in
/// the allowed ones.
pub fn should_leave(allowed: &Vec<u64>, guild_id: u64) -> (r: bool)
    ensures
        r == !allowed@.contains(guild_id),
{
    let mut i: usize = 0;
    while i < allowed.len()
        invariant
            i <= allowed@.len(),
            forall|j: int| 0 <= j < i ==> allowed@[j] != guild_id,
        decreases allowed@.len() - i,
    {
        if allowed[i] == guild_id {
            return false;
        }
        i = i + 1;
    }
    true
}

} // verus!
