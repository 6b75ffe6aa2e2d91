//! A shirt giveaway and a shoe filter.

use vstd::prelude::*;
use vstd::seq_lib::*;

verus! {

/// A shirt color the store stocks.
#[derive(Debug, Clone, Copy, PartialEq, Eq, Structural)]
pub enum ShirtColor {
    Red,
    Blue,
}

/// How many shirts of color `c` a stock holds.
pub open spec fn count_shirts(s: Seq<ShirtColor>, c: ShirtColor) -> int
    decreases s.len(),
{
    if s.len() == 0 {
        0
    } else {
        count_shirts(s.drop_last(), c) + if s.last() == c {
            1int
        } else {
            0int
        }
    }
}

/// The count of any one color never exceeds the stock size.
proof fn lemma_count_shirts_le_len(s: Seq<ShirtColor>, c: ShirtColor)
    ensures
        0 <= count_shirts(s, c) <= s.len(),
    decreases s.len(),
{
    if s.len() > 0 {
        lemma_count_shirts_le_len(s.drop_last(), c);
    }
}

/// A store's shirt stock.
pub struct Inventory {
    pub shirts: Vec<ShirtColor>,
}

impl Inventory {
    /// The color the store holds the most of; blue wins ties.
    pub open spec fn spec_most_stocked(&self) -> ShirtColor {
        if count_shirts(self.shirts@, ShirtColor::Red) > count_shirts(
            self.shirts@,
            ShirtColor::Blue,
        ) {
            ShirtColor::Red
        } else {
            ShirtColor::Blue
        }
    }

    /// Counts the stock of both colors and returns the larger one; blue
    /// wins ties.
    pub fn most_stocked(&self) -> (r: ShirtColor)
        ensures
            r == self.spec_most_stocked(),
    {
        let mut num_red: usize = 0;
        let mut num_blue: usize = 0;
        let n = self.shirts.len();
        let mut i: usize = 0;
        while i < n
            invariant
                n == self.shirts@.len(),
                i <= n,
                num_red == count_shirts(self.shirts@.take(i as int), ShirtColor::Red),
                num_blue == count_shirts(self.shirts@.take(i as int), ShirtColor::Blue),
                num_red <= i,
                num_blue <= i,
            decreases n - i,
        {
            proof {
                assert(self.shirts@.take(i + 1).drop_last() =~= self.shirts@.take(i as int));
                assert(self.shirts@.take(i + 1).last() == self.shirts@[i as int]);
            }
            match self.shirts[i] {
                ShirtColor::Red => num_red = num_red + 1,
                ShirtColor::Blue => num_blue = num_blue + 1,
            }
            i = i + 1;
        }
        proof {
            assert(self.shirts@.take(n as int) =~= self.shirts@);
        }
        if num_red > num_blue {
            ShirtColor::Red
        } else {
            ShirtColor::Blue
        }
    }

    /// The preferred color if the user named one, else the most stocked one.
    pub fn giveaway(&self, user_preference: Option<ShirtColor>) -> (r: ShirtColor)
        ensures
            match user_preference {
                Some(c) => r == c,
                None => r == self.spec_most_stocked(),
            },
    {
        match user_preference {
            Some(c) => c,
            None => self.most_stocked(),
        }
    }
}

/// A shoe on offer.
#[derive(Debug, PartialEq)]
pub struct Shoe {
    pub size: u32,
    pub style: String,
}

/// Keeps exactly the shoes of the given size, in their original order.
pub fn shoes_in_size(shoes: Vec<Shoe>, shoe_size: u32) -> (r: Vec<Shoe>)
    ensures
        r@ == shoes@.filter(|s: Shoe| s.size == shoe_size),
{
    let ghost original = shoes@;
    let ghost pred = |s: Shoe| s.size == shoe_size;
    let mut shoes = shoes;
    let mut result: Vec<Shoe> = Vec::new();
    let ghost mut processed: Seq<Shoe> = Seq::empty();
    proof {
        assert(processed.filter(pred) =~= Seq::<Shoe>::empty());
    }
    while shoes.len() > 0
        invariant
            pred == (|s: Shoe| s.size == shoe_size),
            original =~= processed + shoes@,
            result@ == processed.filter(pred),
        decreases shoes@.len(),
    {
        let shoe = shoes.remove(0);
        let ghost taken = shoe;
        proof {
            processed.lemma_filter_push(taken, pred);
            assert(pred(taken) == (taken.size == shoe_size));
        }
        if shoe.size == shoe_size {
            result.push(shoe);
        }
        proof {
            processed = processed.push(taken);
            assert(original =~= processed + shoes@);
        }
    }
    proof {
        assert(processed =~= original);
    }
    result
}

} // verus!
