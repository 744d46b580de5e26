//! The reference by which the host names the state of a scan.
//!
//! Between planning and execution the host keeps nothing of a scan but a list
//! of 64-bit integers that it hands back unchanged. A [`ScanToken`] is what
//! that list carries: the place of the scan's state and the generation of
//! that place, so that a reference to a state that has been released is told
//! apart from a reference to the state that took its place.

use vstd::prelude::*;

verus! {

/// The reference to the state of one scan.
#[derive(Clone, Copy, Debug, PartialEq, Eq, Structural)]
pub struct ScanToken {
    pub index: u32,
    pub generation: u32,
}

/// The 64-bit integer that carries a token: generation and index side by
/// side, read as a signed number in two's complement.
pub open spec fn token_datum(token: ScanToken) -> int {
    let packed = token.generation * 0x1_0000_0000 + token.index;
    if packed <= i64::MAX {
        packed
    } else {
        packed - 0x1_0000_0000_0000_0000
    }
}

/// The token that a 64-bit integer carries.
pub open spec fn datum_token(datum: int) -> ScanToken {
    let packed = if datum >= 0 {
        datum
    } else {
        datum + 0x1_0000_0000_0000_0000
    };
    ScanToken {
        index: (packed % 0x1_0000_0000) as u32,
        generation: (packed / 0x1_0000_0000) as u32,
    }
}

/// The list that carries a token: its one integer.
pub open spec fn serialized(token: ScanToken) -> Seq<i64> {
    seq![token_datum(token) as i64]
}

/// The token that a list carries in its first integer, if it has one.
pub open spec fn deserialized(list: Seq<i64>) -> Option<ScanToken> {
    if list.len() == 0 {
        None
    } else {
        Some(datum_token(list[0] as int))
    }
}

/// A token comes back unchanged from the integer that carries it.
pub proof fn lemma_token_round_trip(token: ScanToken)
    ensures
        i64::MIN <= token_datum(token) <= i64::MAX,
        datum_token(token_datum(token)) == token,
{
}

/// Every 64-bit integer carries exactly one token.
pub proof fn lemma_datum_round_trip(datum: i64)
    ensures
        token_datum(datum_token(datum as int)) == datum,
{
}

impl ScanToken {
    /// The integer that carries this token.
    pub fn to_datum(&self) -> (datum: i64)
        ensures
            datum == token_datum(*self),
    {
        let high: u64 = self.generation as u64;
        let packed: u64 = high * 0x1_0000_0000 + self.index as u64;
        if packed <= 0x7FFF_FFFF_FFFF_FFFF {
            packed as i64
        } else {
            let below: u64 = u64::MAX - packed;
            -(below as i64) - 1
        }
    }

    /// The token that `datum` carries.
    pub fn from_datum(datum: i64) -> (token: ScanToken)
        ensures
            token == datum_token(datum as int),
    {
        let packed: u64 = if datum >= 0 {
            datum as u64
        } else {
            let below: u64 = (-(datum + 1)) as u64;
            u64::MAX - below
        };
        ScanToken {
            index: (packed % 0x1_0000_0000) as u32,
            generation: (packed / 0x1_0000_0000) as u32,
        }
    }

    /// The list that the host keeps for a scan: the one integer that carries
    /// the token.
    pub fn serialize_to_list(&self) -> (list: Vec<i64>)
        ensures
            list@ == serialized(*self),
    {
        let mut list: Vec<i64> = Vec::new();
        list.push(self.to_datum());
        proof {
            lemma_token_round_trip(*self);
        }
        assert(list@ =~= serialized(*self));
        list
    }

    /// The token that a list of the host carries in its first integer, or
    /// `None` where the list is empty.
    pub fn deserialize_from_list(list: &Vec<i64>) -> (token: Option<ScanToken>)
        ensures
            token == deserialized(list@),
    {
        if list.len() == 0 {
            None
        } else {
            Some(ScanToken::from_datum(list[0]))
        }
    }
}

/// What was serialized for a token deserializes to that token.
pub proof fn lemma_list_round_trip(token: ScanToken)
    ensures
        deserialized(serialized(token)) == Some(token),
{
    lemma_token_round_trip(token);
}

} // verus!
