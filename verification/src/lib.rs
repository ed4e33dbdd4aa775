//! A small number-theory toolkit: prime sieves, primality testing, integer
//! factorisation and the prime-counting function, together with a few
//! classical integer sequences built on top of them.
//!
//! Every executable function carries a contract over mathematical integers
//! and sequences, and every contract is proved.

pub mod aliquot;
pub mod arith;
pub mod atkin;
pub mod bitset;
pub mod continued_fraction;
pub mod factor;
pub mod factorization;
pub mod figurate;
pub mod partition;
pub mod partition_table;
pub mod prime;
pub mod prime_list;
pub mod prime_count;
pub mod rho;
pub mod segmented;
pub mod small_primes;
pub mod totient;
