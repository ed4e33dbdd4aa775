//! The partition function of every number up to `MAX_PART`, checked
//! against Euler's recurrence value by value.

use vstd::prelude::*;
use crate::partition::{
    lemma_partition_terms_stable, lemma_pentagonal, partition_number, partition_terms, pentagonal,
};

verus! {

/// The generalised pentagonal numbers that the recurrence needs up to
/// `MAX_PART`.
proof fn lemma_pentagonal_values()
    ensures
        pentagonal(0) == 0,
        pentagonal(1) == 1,
        pentagonal(2) == 2,
        pentagonal(3) == 5,
        pentagonal(4) == 7,
        pentagonal(5) == 12,
        pentagonal(6) == 15,
        pentagonal(7) == 22,
        pentagonal(8) == 26,
        pentagonal(9) == 35,
        pentagonal(10) == 40,
        pentagonal(11) == 51,
        pentagonal(12) == 57,
        pentagonal(13) == 70,
        pentagonal(14) == 77,
        pentagonal(15) == 92,
        pentagonal(16) == 100,
        pentagonal(17) == 117,
        pentagonal(18) == 126,
        pentagonal(19) == 145,
        pentagonal(20) == 155,
        pentagonal(21) == 176,
        pentagonal(22) == 187,
        pentagonal(23) == 210,
        pentagonal(24) == 222,
        pentagonal(25) == 247,
        pentagonal(26) == 260,
        pentagonal(27) == 287,
        pentagonal(28) == 301,
        pentagonal(29) == 330,
        pentagonal(30) == 345,
        pentagonal(31) == 376,
        pentagonal(32) == 392,
        pentagonal(33) == 425,
{
    lemma_pentagonal(0);
    lemma_pentagonal(1);
    lemma_pentagonal(2);
    lemma_pentagonal(3);
    lemma_pentagonal(4);
    lemma_pentagonal(5);
    lemma_pentagonal(6);
    lemma_pentagonal(7);
    lemma_pentagonal(8);
    lemma_pentagonal(9);
    lemma_pentagonal(10);
    lemma_pentagonal(11);
    lemma_pentagonal(12);
    lemma_pentagonal(13);
    lemma_pentagonal(14);
    lemma_pentagonal(15);
    lemma_pentagonal(16);
    lemma_pentagonal(17);
    lemma_pentagonal(18);
    lemma_pentagonal(19);
    lemma_pentagonal(20);
    lemma_pentagonal(21);
    lemma_pentagonal(22);
    lemma_pentagonal(23);
    lemma_pentagonal(24);
    lemma_pentagonal(25);
    lemma_pentagonal(26);
    lemma_pentagonal(27);
    lemma_pentagonal(28);
    lemma_pentagonal(29);
    lemma_pentagonal(30);
    lemma_pentagonal(31);
    lemma_pentagonal(32);
    lemma_pentagonal(33);
}

/// The recurrence at 0.
proof fn lemma_partition_at_0()
    ensures
        partition_number(0) == 1,
{
}

/// The recurrence at 1.
proof fn lemma_partition_at_1()
    ensures
        partition_number(1) == 1,
{
    lemma_pentagonal_values();
    lemma_partition_terms_stable(1, 1, 1);
    assert(partition_terms(1, 0) == 0);
    lemma_partition_at_0();
    assert(partition_terms(1, 1) == 1);
}

/// The recurrence at 2.
proof fn lemma_partition_at_2()
    ensures
        partition_number(2) == 2,
{
    lemma_pentagonal_values();
    lemma_partition_terms_stable(2, 2, 2);
    assert(partition_terms(2, 0) == 0);
    lemma_partition_at_1();
    assert(partition_terms(2, 1) == 1);
    lemma_partition_at_0();
    assert(partition_terms(2, 2) == 2);
}

/// The recurrence at 3.
proof fn lemma_partition_at_3()
    ensures
        partition_number(3) == 3,
{
    lemma_pentagonal_values();
    lemma_partition_terms_stable(3, 2, 3);
    assert(partition_terms(3, 0) == 0);
    lemma_partition_at_2();
    assert(partition_terms(3, 1) == 2);
    lemma_partition_at_1();
    assert(partition_terms(3, 2) == 3);
}

/// The recurrence at 4.
proof fn lemma_partition_at_4()
    ensures
        partition_number(4) == 5,
{
    lemma_pentagonal_values();
    lemma_partition_terms_stable(4, 2, 4);
    assert(partition_terms(4, 0) == 0);
    lemma_partition_at_3();
    assert(partition_terms(4, 1) == 3);
    lemma_partition_at_2();
    assert(partition_terms(4, 2) == 5);
}

/// The recurrence at 5.
proof fn lemma_partition_at_5()
    ensures
        partition_number(5) == 7,
{
    lemma_pentagonal_values();
    lemma_partition_terms_stable(5, 3, 5);
    assert(partition_terms(5, 0) == 0);
    lemma_partition_at_4();
    assert(partition_terms(5, 1) == 5);
    lemma_partition_at_3();
    assert(partition_terms(5, 2) == 8);
    lemma_partition_at_0();
    assert(partition_terms(5, 3) == 7);
}

/// The recurrence at 6.
proof fn lemma_partition_at_6()
    ensures
        partition_number(6) == 11,
{
    lemma_pentagonal_values();
    lemma_partition_terms_stable(6, 3, 6);
    assert(partition_terms(6, 0) == 0);
    lemma_partition_at_5();
    assert(partition_terms(6, 1) == 7);
    lemma_partition_at_4();
    assert(partition_terms(6, 2) == 12);
    lemma_partition_at_1();
    assert(partition_terms(6, 3) == 11);
}

/// The recurrence at 7.
proof fn lemma_partition_at_7()
    ensures
        partition_number(7) == 15,
{
    lemma_pentagonal_values();
    lemma_partition_terms_stable(7, 4, 7);
    assert(partition_terms(7, 0) == 0);
    lemma_partition_at_6();
    assert(partition_terms(7, 1) == 11);
    lemma_partition_at_5();
    assert(partition_terms(7, 2) == 18);
    lemma_partition_at_2();
    assert(partition_terms(7, 3) == 16);
    lemma_partition_at_0();
    assert(partition_terms(7, 4) == 15);
}

/// The recurrence at 8.
proof fn lemma_partition_at_8()
    ensures
        partition_number(8) == 22,
{
    lemma_pentagonal_values();
    lemma_partition_terms_stable(8, 4, 8);
    assert(partition_terms(8, 0) == 0);
    lemma_partition_at_7();
    assert(partition_terms(8, 1) == 15);
    lemma_partition_at_6();
    assert(partition_terms(8, 2) == 26);
    lemma_partition_at_3();
    assert(partition_terms(8, 3) == 23);
    lemma_partition_at_1();
    assert(partition_terms(8, 4) == 22);
}

/// The recurrence at 9.
proof fn lemma_partition_at_9()
    ensures
        partition_number(9) == 30,
{
    lemma_pentagonal_values();
    lemma_partition_terms_stable(9, 4, 9);
    assert(partition_terms(9, 0) == 0);
    lemma_partition_at_8();
    assert(partition_terms(9, 1) == 22);
    lemma_partition_at_7();
    assert(partition_terms(9, 2) == 37);
    lemma_partition_at_4();
    assert(partition_terms(9, 3) == 32);
    lemma_partition_at_2();
    assert(partition_terms(9, 4) == 30);
}

/// The recurrence at 10.
proof fn lemma_partition_at_10()
    ensures
        partition_number(10) == 42,
{
    lemma_pentagonal_values();
    lemma_partition_terms_stable(10, 4, 10);
    assert(partition_terms(10, 0) == 0);
    lemma_partition_at_9();
    assert(partition_terms(10, 1) == 30);
    lemma_partition_at_8();
    assert(partition_terms(10, 2) == 52);
    lemma_partition_at_5();
    assert(partition_terms(10, 3) == 45);
    lemma_partition_at_3();
    assert(partition_terms(10, 4) == 42);
}

/// The recurrence at 11.
proof fn lemma_partition_at_11()
    ensures
        partition_number(11) == 56,
{
    lemma_pentagonal_values();
    lemma_partition_terms_stable(11, 4, 11);
    assert(partition_terms(11, 0) == 0);
    lemma_partition_at_10();
    assert(partition_terms(11, 1) == 42);
    lemma_partition_at_9();
    assert(partition_terms(11, 2) == 72);
    lemma_partition_at_6();
    assert(partition_terms(11, 3) == 61);
    lemma_partition_at_4();
    assert(partition_terms(11, 4) == 56);
}

/// The recurrence at 12.
proof fn lemma_partition_at_12()
    ensures
        partition_number(12) == 77,
{
    lemma_pentagonal_values();
    lemma_partition_terms_stable(12, 5, 12);
    assert(partition_terms(12, 0) == 0);
    lemma_partition_at_11();
    assert(partition_terms(12, 1) == 56);
    lemma_partition_at_10();
    assert(partition_terms(12, 2) == 98);
    lemma_partition_at_7();
    assert(partition_terms(12, 3) == 83);
    lemma_partition_at_5();
    assert(partition_terms(12, 4) == 76);
    lemma_partition_at_0();
    assert(partition_terms(12, 5) == 77);
}

/// The recurrence at 13.
proof fn lemma_partition_at_13()
    ensures
        partition_number(13) == 101,
{
    lemma_pentagonal_values();
    lemma_partition_terms_stable(13, 5, 13);
    assert(partition_terms(13, 0) == 0);
    lemma_partition_at_12();
    assert(partition_terms(13, 1) == 77);
    lemma_partition_at_11();
    assert(partition_terms(13, 2) == 133);
    lemma_partition_at_8();
    assert(partition_terms(13, 3) == 111);
    lemma_partition_at_6();
    assert(partition_terms(13, 4) == 100);
    lemma_partition_at_1();
    assert(partition_terms(13, 5) == 101);
}

/// The recurrence at 14.
proof fn lemma_partition_at_14()
    ensures
        partition_number(14) == 135,
{
    lemma_pentagonal_values();
    lemma_partition_terms_stable(14, 5, 14);
    assert(partition_terms(14, 0) == 0);
    lemma_partition_at_13();
    assert(partition_terms(14, 1) == 101);
    lemma_partition_at_12();
    assert(partition_terms(14, 2) == 178);
    lemma_partition_at_9();
    assert(partition_terms(14, 3) == 148);
    lemma_partition_at_7();
    assert(partition_terms(14, 4) == 133);
    lemma_partition_at_2();
    assert(partition_terms(14, 5) == 135);
}

/// The recurrence at 15.
proof fn lemma_partition_at_15()
    ensures
        partition_number(15) == 176,
{
    lemma_pentagonal_values();
    lemma_partition_terms_stable(15, 6, 15);
    assert(partition_terms(15, 0) == 0);
    lemma_partition_at_14();
    assert(partition_terms(15, 1) == 135);
    lemma_partition_at_13();
    assert(partition_terms(15, 2) == 236);
    lemma_partition_at_10();
    assert(partition_terms(15, 3) == 194);
    lemma_partition_at_8();
    assert(partition_terms(15, 4) == 172);
    lemma_partition_at_3();
    assert(partition_terms(15, 5) == 175);
    lemma_partition_at_0();
    assert(partition_terms(15, 6) == 176);
}

/// The recurrence at 16.
proof fn lemma_partition_at_16()
    ensures
        partition_number(16) == 231,
{
    lemma_pentagonal_values();
    lemma_partition_terms_stable(16, 6, 16);
    assert(partition_terms(16, 0) == 0);
    lemma_partition_at_15();
    assert(partition_terms(16, 1) == 176);
    lemma_partition_at_14();
    assert(partition_terms(16, 2) == 311);
    lemma_partition_at_11();
    assert(partition_terms(16, 3) == 255);
    lemma_partition_at_9();
    assert(partition_terms(16, 4) == 225);
    lemma_partition_at_4();
    assert(partition_terms(16, 5) == 230);
    lemma_partition_at_1();
    assert(partition_terms(16, 6) == 231);
}

/// The recurrence at 17.
proof fn lemma_partition_at_17()
    ensures
        partition_number(17) == 297,
{
    lemma_pentagonal_values();
    lemma_partition_terms_stable(17, 6, 17);
    assert(partition_terms(17, 0) == 0);
    lemma_partition_at_16();
    assert(partition_terms(17, 1) == 231);
    lemma_partition_at_15();
    assert(partition_terms(17, 2) == 407);
    lemma_partition_at_12();
    assert(partition_terms(17, 3) == 330);
    lemma_partition_at_10();
    assert(partition_terms(17, 4) == 288);
    lemma_partition_at_5();
    assert(partition_terms(17, 5) == 295);
    lemma_partition_at_2();
    assert(partition_terms(17, 6) == 297);
}

/// The recurrence at 18.
proof fn lemma_partition_at_18()
    ensures
        partition_number(18) == 385,
{
    lemma_pentagonal_values();
    lemma_partition_terms_stable(18, 6, 18);
    assert(partition_terms(18, 0) == 0);
    lemma_partition_at_17();
    assert(partition_terms(18, 1) == 297);
    lemma_partition_at_16();
    assert(partition_terms(18, 2) == 528);
    lemma_partition_at_13();
    assert(partition_terms(18, 3) == 427);
    lemma_partition_at_11();
    assert(partition_terms(18, 4) == 371);
    lemma_partition_at_6();
    assert(partition_terms(18, 5) == 382);
    lemma_partition_at_3();
    assert(partition_terms(18, 6) == 385);
}

/// The recurrence at 19.
proof fn lemma_partition_at_19()
    ensures
        partition_number(19) == 490,
{
    lemma_pentagonal_values();
    lemma_partition_terms_stable(19, 6, 19);
    assert(partition_terms(19, 0) == 0);
    lemma_partition_at_18();
    assert(partition_terms(19, 1) == 385);
    lemma_partition_at_17();
    assert(partition_terms(19, 2) == 682);
    lemma_partition_at_14();
    assert(partition_terms(19, 3) == 547);
    lemma_partition_at_12();
    assert(partition_terms(19, 4) == 470);
    lemma_partition_at_7();
    assert(partition_terms(19, 5) == 485);
    lemma_partition_at_4();
    assert(partition_terms(19, 6) == 490);
}

/// The recurrence at 20.
proof fn lemma_partition_at_20()
    ensures
        partition_number(20) == 627,
{
    lemma_pentagonal_values();
    lemma_partition_terms_stable(20, 6, 20);
    assert(partition_terms(20, 0) == 0);
    lemma_partition_at_19();
    assert(partition_terms(20, 1) == 490);
    lemma_partition_at_18();
    assert(partition_terms(20, 2) == 875);
    lemma_partition_at_15();
    assert(partition_terms(20, 3) == 699);
    lemma_partition_at_13();
    assert(partition_terms(20, 4) == 598);
    lemma_partition_at_8();
    assert(partition_terms(20, 5) == 620);
    lemma_partition_at_5();
    assert(partition_terms(20, 6) == 627);
}

/// The recurrence at 21.
proof fn lemma_partition_at_21()
    ensures
        partition_number(21) == 792,
{
    lemma_pentagonal_values();
    lemma_partition_terms_stable(21, 6, 21);
    assert(partition_terms(21, 0) == 0);
    lemma_partition_at_20();
    assert(partition_terms(21, 1) == 627);
    lemma_partition_at_19();
    assert(partition_terms(21, 2) == 1117);
    lemma_partition_at_16();
    assert(partition_terms(21, 3) == 886);
    lemma_partition_at_14();
    assert(partition_terms(21, 4) == 751);
    lemma_partition_at_9();
    assert(partition_terms(21, 5) == 781);
    lemma_partition_at_6();
    assert(partition_terms(21, 6) == 792);
}

/// The recurrence at 22.
proof fn lemma_partition_at_22()
    ensures
        partition_number(22) == 1002,
{
    lemma_pentagonal_values();
    lemma_partition_terms_stable(22, 7, 22);
    assert(partition_terms(22, 0) == 0);
    lemma_partition_at_21();
    assert(partition_terms(22, 1) == 792);
    lemma_partition_at_20();
    assert(partition_terms(22, 2) == 1419);
    lemma_partition_at_17();
    assert(partition_terms(22, 3) == 1122);
    lemma_partition_at_15();
    assert(partition_terms(22, 4) == 946);
    lemma_partition_at_10();
    assert(partition_terms(22, 5) == 988);
    lemma_partition_at_7();
    assert(partition_terms(22, 6) == 1003);
    lemma_partition_at_0();
    assert(partition_terms(22, 7) == 1002);
}

/// The recurrence at 23.
proof fn lemma_partition_at_23()
    ensures
        partition_number(23) == 1255,
{
    lemma_pentagonal_values();
    lemma_partition_terms_stable(23, 7, 23);
    assert(partition_terms(23, 0) == 0);
    lemma_partition_at_22();
    assert(partition_terms(23, 1) == 1002);
    lemma_partition_at_21();
    assert(partition_terms(23, 2) == 1794);
    lemma_partition_at_18();
    assert(partition_terms(23, 3) == 1409);
    lemma_partition_at_16();
    assert(partition_terms(23, 4) == 1178);
    lemma_partition_at_11();
    assert(partition_terms(23, 5) == 1234);
    lemma_partition_at_8();
    assert(partition_terms(23, 6) == 1256);
    lemma_partition_at_1();
    assert(partition_terms(23, 7) == 1255);
}

/// The recurrence at 24.
proof fn lemma_partition_at_24()
    ensures
        partition_number(24) == 1575,
{
    lemma_pentagonal_values();
    lemma_partition_terms_stable(24, 7, 24);
    assert(partition_terms(24, 0) == 0);
    lemma_partition_at_23();
    assert(partition_terms(24, 1) == 1255);
    lemma_partition_at_22();
    assert(partition_terms(24, 2) == 2257);
    lemma_partition_at_19();
    assert(partition_terms(24, 3) == 1767);
    lemma_partition_at_17();
    assert(partition_terms(24, 4) == 1470);
    lemma_partition_at_12();
    assert(partition_terms(24, 5) == 1547);
    lemma_partition_at_9();
    assert(partition_terms(24, 6) == 1577);
    lemma_partition_at_2();
    assert(partition_terms(24, 7) == 1575);
}

/// The recurrence at 25.
proof fn lemma_partition_at_25()
    ensures
        partition_number(25) == 1958,
{
    lemma_pentagonal_values();
    lemma_partition_terms_stable(25, 7, 25);
    assert(partition_terms(25, 0) == 0);
    lemma_partition_at_24();
    assert(partition_terms(25, 1) == 1575);
    lemma_partition_at_23();
    assert(partition_terms(25, 2) == 2830);
    lemma_partition_at_20();
    assert(partition_terms(25, 3) == 2203);
    lemma_partition_at_18();
    assert(partition_terms(25, 4) == 1818);
    lemma_partition_at_13();
    assert(partition_terms(25, 5) == 1919);
    lemma_partition_at_10();
    assert(partition_terms(25, 6) == 1961);
    lemma_partition_at_3();
    assert(partition_terms(25, 7) == 1958);
}

/// The recurrence at 26.
proof fn lemma_partition_at_26()
    ensures
        partition_number(26) == 2436,
{
    lemma_pentagonal_values();
    lemma_partition_terms_stable(26, 8, 26);
    assert(partition_terms(26, 0) == 0);
    lemma_partition_at_25();
    assert(partition_terms(26, 1) == 1958);
    lemma_partition_at_24();
    assert(partition_terms(26, 2) == 3533);
    lemma_partition_at_21();
    assert(partition_terms(26, 3) == 2741);
    lemma_partition_at_19();
    assert(partition_terms(26, 4) == 2251);
    lemma_partition_at_14();
    assert(partition_terms(26, 5) == 2386);
    lemma_partition_at_11();
    assert(partition_terms(26, 6) == 2442);
    lemma_partition_at_4();
    assert(partition_terms(26, 7) == 2437);
    lemma_partition_at_0();
    assert(partition_terms(26, 8) == 2436);
}

/// The recurrence at 27.
proof fn lemma_partition_at_27()
    ensures
        partition_number(27) == 3010,
{
    lemma_pentagonal_values();
    lemma_partition_terms_stable(27, 8, 27);
    assert(partition_terms(27, 0) == 0);
    lemma_partition_at_26();
    assert(partition_terms(27, 1) == 2436);
    lemma_partition_at_25();
    assert(partition_terms(27, 2) == 4394);
    lemma_partition_at_22();
    assert(partition_terms(27, 3) == 3392);
    lemma_partition_at_20();
    assert(partition_terms(27, 4) == 2765);
    lemma_partition_at_15();
    assert(partition_terms(27, 5) == 2941);
    lemma_partition_at_12();
    assert(partition_terms(27, 6) == 3018);
    lemma_partition_at_5();
    assert(partition_terms(27, 7) == 3011);
    lemma_partition_at_1();
    assert(partition_terms(27, 8) == 3010);
}

/// The recurrence at 28.
proof fn lemma_partition_at_28()
    ensures
        partition_number(28) == 3718,
{
    lemma_pentagonal_values();
    lemma_partition_terms_stable(28, 8, 28);
    assert(partition_terms(28, 0) == 0);
    lemma_partition_at_27();
    assert(partition_terms(28, 1) == 3010);
    lemma_partition_at_26();
    assert(partition_terms(28, 2) == 5446);
    lemma_partition_at_23();
    assert(partition_terms(28, 3) == 4191);
    lemma_partition_at_21();
    assert(partition_terms(28, 4) == 3399);
    lemma_partition_at_16();
    assert(partition_terms(28, 5) == 3630);
    lemma_partition_at_13();
    assert(partition_terms(28, 6) == 3731);
    lemma_partition_at_6();
    assert(partition_terms(28, 7) == 3720);
    lemma_partition_at_2();
    assert(partition_terms(28, 8) == 3718);
}

/// The recurrence at 29.
proof fn lemma_partition_at_29()
    ensures
        partition_number(29) == 4565,
{
    lemma_pentagonal_values();
    lemma_partition_terms_stable(29, 8, 29);
    assert(partition_terms(29, 0) == 0);
    lemma_partition_at_28();
    assert(partition_terms(29, 1) == 3718);
    lemma_partition_at_27();
    assert(partition_terms(29, 2) == 6728);
    lemma_partition_at_24();
    assert(partition_terms(29, 3) == 5153);
    lemma_partition_at_22();
    assert(partition_terms(29, 4) == 4151);
    lemma_partition_at_17();
    assert(partition_terms(29, 5) == 4448);
    lemma_partition_at_14();
    assert(partition_terms(29, 6) == 4583);
    lemma_partition_at_7();
    assert(partition_terms(29, 7) == 4568);
    lemma_partition_at_3();
    assert(partition_terms(29, 8) == 4565);
}

/// The recurrence at 30.
proof fn lemma_partition_at_30()
    ensures
        partition_number(30) == 5604,
{
    lemma_pentagonal_values();
    lemma_partition_terms_stable(30, 8, 30);
    assert(partition_terms(30, 0) == 0);
    lemma_partition_at_29();
    assert(partition_terms(30, 1) == 4565);
    lemma_partition_at_28();
    assert(partition_terms(30, 2) == 8283);
    lemma_partition_at_25();
    assert(partition_terms(30, 3) == 6325);
    lemma_partition_at_23();
    assert(partition_terms(30, 4) == 5070);
    lemma_partition_at_18();
    assert(partition_terms(30, 5) == 5455);
    lemma_partition_at_15();
    assert(partition_terms(30, 6) == 5631);
    lemma_partition_at_8();
    assert(partition_terms(30, 7) == 5609);
    lemma_partition_at_4();
    assert(partition_terms(30, 8) == 5604);
}

/// The recurrence at 31.
proof fn lemma_partition_at_31()
    ensures
        partition_number(31) == 6842,
{
    lemma_pentagonal_values();
    lemma_partition_terms_stable(31, 8, 31);
    assert(partition_terms(31, 0) == 0);
    lemma_partition_at_30();
    assert(partition_terms(31, 1) == 5604);
    lemma_partition_at_29();
    assert(partition_terms(31, 2) == 10169);
    lemma_partition_at_26();
    assert(partition_terms(31, 3) == 7733);
    lemma_partition_at_24();
    assert(partition_terms(31, 4) == 6158);
    lemma_partition_at_19();
    assert(partition_terms(31, 5) == 6648);
    lemma_partition_at_16();
    assert(partition_terms(31, 6) == 6879);
    lemma_partition_at_9();
    assert(partition_terms(31, 7) == 6849);
    lemma_partition_at_5();
    assert(partition_terms(31, 8) == 6842);
}

/// The recurrence at 32.
proof fn lemma_partition_at_32()
    ensures
        partition_number(32) == 8349,
{
    lemma_pentagonal_values();
    lemma_partition_terms_stable(32, 8, 32);
    assert(partition_terms(32, 0) == 0);
    lemma_partition_at_31();
    assert(partition_terms(32, 1) == 6842);
    lemma_partition_at_30();
    assert(partition_terms(32, 2) == 12446);
    lemma_partition_at_27();
    assert(partition_terms(32, 3) == 9436);
    lemma_partition_at_25();
    assert(partition_terms(32, 4) == 7478);
    lemma_partition_at_20();
    assert(partition_terms(32, 5) == 8105);
    lemma_partition_at_17();
    assert(partition_terms(32, 6) == 8402);
    lemma_partition_at_10();
    assert(partition_terms(32, 7) == 8360);
    lemma_partition_at_6();
    assert(partition_terms(32, 8) == 8349);
}

/// The recurrence at 33.
proof fn lemma_partition_at_33()
    ensures
        partition_number(33) == 10143,
{
    lemma_pentagonal_values();
    lemma_partition_terms_stable(33, 8, 33);
    assert(partition_terms(33, 0) == 0);
    lemma_partition_at_32();
    assert(partition_terms(33, 1) == 8349);
    lemma_partition_at_31();
    assert(partition_terms(33, 2) == 15191);
    lemma_partition_at_28();
    assert(partition_terms(33, 3) == 11473);
    lemma_partition_at_26();
    assert(partition_terms(33, 4) == 9037);
    lemma_partition_at_21();
    assert(partition_terms(33, 5) == 9829);
    lemma_partition_at_18();
    assert(partition_terms(33, 6) == 10214);
    lemma_partition_at_11();
    assert(partition_terms(33, 7) == 10158);
    lemma_partition_at_7();
    assert(partition_terms(33, 8) == 10143);
}

/// The recurrence at 34.
proof fn lemma_partition_at_34()
    ensures
        partition_number(34) == 12310,
{
    lemma_pentagonal_values();
    lemma_partition_terms_stable(34, 8, 34);
    assert(partition_terms(34, 0) == 0);
    lemma_partition_at_33();
    assert(partition_terms(34, 1) == 10143);
    lemma_partition_at_32();
    assert(partition_terms(34, 2) == 18492);
    lemma_partition_at_29();
    assert(partition_terms(34, 3) == 13927);
    lemma_partition_at_27();
    assert(partition_terms(34, 4) == 10917);
    lemma_partition_at_22();
    assert(partition_terms(34, 5) == 11919);
    lemma_partition_at_19();
    assert(partition_terms(34, 6) == 12409);
    lemma_partition_at_12();
    assert(partition_terms(34, 7) == 12332);
    lemma_partition_at_8();
    assert(partition_terms(34, 8) == 12310);
}

/// The recurrence at 35.
proof fn lemma_partition_at_35()
    ensures
        partition_number(35) == 14883,
{
    lemma_pentagonal_values();
    lemma_partition_terms_stable(35, 9, 35);
    assert(partition_terms(35, 0) == 0);
    lemma_partition_at_34();
    assert(partition_terms(35, 1) == 12310);
    lemma_partition_at_33();
    assert(partition_terms(35, 2) == 22453);
    lemma_partition_at_30();
    assert(partition_terms(35, 3) == 16849);
    lemma_partition_at_28();
    assert(partition_terms(35, 4) == 13131);
    lemma_partition_at_23();
    assert(partition_terms(35, 5) == 14386);
    lemma_partition_at_20();
    assert(partition_terms(35, 6) == 15013);
    lemma_partition_at_13();
    assert(partition_terms(35, 7) == 14912);
    lemma_partition_at_9();
    assert(partition_terms(35, 8) == 14882);
    lemma_partition_at_0();
    assert(partition_terms(35, 9) == 14883);
}

/// The recurrence at 36.
proof fn lemma_partition_at_36()
    ensures
        partition_number(36) == 17977,
{
    lemma_pentagonal_values();
    lemma_partition_terms_stable(36, 9, 36);
    assert(partition_terms(36, 0) == 0);
    lemma_partition_at_35();
    assert(partition_terms(36, 1) == 14883);
    lemma_partition_at_34();
    assert(partition_terms(36, 2) == 27193);
    lemma_partition_at_31();
    assert(partition_terms(36, 3) == 20351);
    lemma_partition_at_29();
    assert(partition_terms(36, 4) == 15786);
    lemma_partition_at_24();
    assert(partition_terms(36, 5) == 17361);
    lemma_partition_at_21();
    assert(partition_terms(36, 6) == 18153);
    lemma_partition_at_14();
    assert(partition_terms(36, 7) == 18018);
    lemma_partition_at_10();
    assert(partition_terms(36, 8) == 17976);
    lemma_partition_at_1();
    assert(partition_terms(36, 9) == 17977);
}

/// The recurrence at 37.
proof fn lemma_partition_at_37()
    ensures
        partition_number(37) == 21637,
{
    lemma_pentagonal_values();
    lemma_partition_terms_stable(37, 9, 37);
    assert(partition_terms(37, 0) == 0);
    lemma_partition_at_36();
    assert(partition_terms(37, 1) == 17977);
    lemma_partition_at_35();
    assert(partition_terms(37, 2) == 32860);
    lemma_partition_at_32();
    assert(partition_terms(37, 3) == 24511);
    lemma_partition_at_30();
    assert(partition_terms(37, 4) == 18907);
    lemma_partition_at_25();
    assert(partition_terms(37, 5) == 20865);
    lemma_partition_at_22();
    assert(partition_terms(37, 6) == 21867);
    lemma_partition_at_15();
    assert(partition_terms(37, 7) == 21691);
    lemma_partition_at_11();
    assert(partition_terms(37, 8) == 21635);
    lemma_partition_at_2();
    assert(partition_terms(37, 9) == 21637);
}

/// The recurrence at 38.
proof fn lemma_partition_at_38()
    ensures
        partition_number(38) == 26015,
{
    lemma_pentagonal_values();
    lemma_partition_terms_stable(38, 9, 38);
    assert(partition_terms(38, 0) == 0);
    lemma_partition_at_37();
    assert(partition_terms(38, 1) == 21637);
    lemma_partition_at_36();
    assert(partition_terms(38, 2) == 39614);
    lemma_partition_at_33();
    assert(partition_terms(38, 3) == 29471);
    lemma_partition_at_31();
    assert(partition_terms(38, 4) == 22629);
    lemma_partition_at_26();
    assert(partition_terms(38, 5) == 25065);
    lemma_partition_at_23();
    assert(partition_terms(38, 6) == 26320);
    lemma_partition_at_16();
    assert(partition_terms(38, 7) == 26089);
    lemma_partition_at_12();
    assert(partition_terms(38, 8) == 26012);
    lemma_partition_at_3();
    assert(partition_terms(38, 9) == 26015);
}

/// The recurrence at 39.
proof fn lemma_partition_at_39()
    ensures
        partition_number(39) == 31185,
{
    lemma_pentagonal_values();
    lemma_partition_terms_stable(39, 9, 39);
    assert(partition_terms(39, 0) == 0);
    lemma_partition_at_38();
    assert(partition_terms(39, 1) == 26015);
    lemma_partition_at_37();
    assert(partition_terms(39, 2) == 47652);
    lemma_partition_at_34();
    assert(partition_terms(39, 3) == 35342);
    lemma_partition_at_32();
    assert(partition_terms(39, 4) == 26993);
    lemma_partition_at_27();
    assert(partition_terms(39, 5) == 30003);
    lemma_partition_at_24();
    assert(partition_terms(39, 6) == 31578);
    lemma_partition_at_17();
    assert(partition_terms(39, 7) == 31281);
    lemma_partition_at_13();
    assert(partition_terms(39, 8) == 31180);
    lemma_partition_at_4();
    assert(partition_terms(39, 9) == 31185);
}

/// The recurrence at 40.
proof fn lemma_partition_at_40()
    ensures
        partition_number(40) == 37338,
{
    lemma_pentagonal_values();
    lemma_partition_terms_stable(40, 10, 40);
    assert(partition_terms(40, 0) == 0);
    lemma_partition_at_39();
    assert(partition_terms(40, 1) == 31185);
    lemma_partition_at_38();
    assert(partition_terms(40, 2) == 57200);
    lemma_partition_at_35();
    assert(partition_terms(40, 3) == 42317);
    lemma_partition_at_33();
    assert(partition_terms(40, 4) == 32174);
    lemma_partition_at_28();
    assert(partition_terms(40, 5) == 35892);
    lemma_partition_at_25();
    assert(partition_terms(40, 6) == 37850);
    lemma_partition_at_18();
    assert(partition_terms(40, 7) == 37465);
    lemma_partition_at_14();
    assert(partition_terms(40, 8) == 37330);
    lemma_partition_at_5();
    assert(partition_terms(40, 9) == 37337);
    lemma_partition_at_0();
    assert(partition_terms(40, 10) == 37338);
}

/// The recurrence at 41.
proof fn lemma_partition_at_41()
    ensures
        partition_number(41) == 44583,
{
    lemma_pentagonal_values();
    lemma_partition_terms_stable(41, 10, 41);
    assert(partition_terms(41, 0) == 0);
    lemma_partition_at_40();
    assert(partition_terms(41, 1) == 37338);
    lemma_partition_at_39();
    assert(partition_terms(41, 2) == 68523);
    lemma_partition_at_36();
    assert(partition_terms(41, 3) == 50546);
    lemma_partition_at_34();
    assert(partition_terms(41, 4) == 38236);
    lemma_partition_at_29();
    assert(partition_terms(41, 5) == 42801);
    lemma_partition_at_26();
    assert(partition_terms(41, 6) == 45237);
    lemma_partition_at_19();
    assert(partition_terms(41, 7) == 44747);
    lemma_partition_at_15();
    assert(partition_terms(41, 8) == 44571);
    lemma_partition_at_6();
    assert(partition_terms(41, 9) == 44582);
    lemma_partition_at_1();
    assert(partition_terms(41, 10) == 44583);
}

/// The recurrence at 42.
proof fn lemma_partition_at_42()
    ensures
        partition_number(42) == 53174,
{
    lemma_pentagonal_values();
    lemma_partition_terms_stable(42, 10, 42);
    assert(partition_terms(42, 0) == 0);
    lemma_partition_at_41();
    assert(partition_terms(42, 1) == 44583);
    lemma_partition_at_40();
    assert(partition_terms(42, 2) == 81921);
    lemma_partition_at_37();
    assert(partition_terms(42, 3) == 60284);
    lemma_partition_at_35();
    assert(partition_terms(42, 4) == 45401);
    lemma_partition_at_30();
    assert(partition_terms(42, 5) == 51005);
    lemma_partition_at_27();
    assert(partition_terms(42, 6) == 54015);
    lemma_partition_at_20();
    assert(partition_terms(42, 7) == 53388);
    lemma_partition_at_16();
    assert(partition_terms(42, 8) == 53157);
    lemma_partition_at_7();
    assert(partition_terms(42, 9) == 53172);
    lemma_partition_at_2();
    assert(partition_terms(42, 10) == 53174);
}

/// The recurrence at 43.
proof fn lemma_partition_at_43()
    ensures
        partition_number(43) == 63261,
{
    lemma_pentagonal_values();
    lemma_partition_terms_stable(43, 10, 43);
    assert(partition_terms(43, 0) == 0);
    lemma_partition_at_42();
    assert(partition_terms(43, 1) == 53174);
    lemma_partition_at_41();
    assert(partition_terms(43, 2) == 97757);
    lemma_partition_at_38();
    assert(partition_terms(43, 3) == 71742);
    lemma_partition_at_36();
    assert(partition_terms(43, 4) == 53765);
    lemma_partition_at_31();
    assert(partition_terms(43, 5) == 60607);
    lemma_partition_at_28();
    assert(partition_terms(43, 6) == 64325);
    lemma_partition_at_21();
    assert(partition_terms(43, 7) == 63533);
    lemma_partition_at_17();
    assert(partition_terms(43, 8) == 63236);
    lemma_partition_at_8();
    assert(partition_terms(43, 9) == 63258);
    lemma_partition_at_3();
    assert(partition_terms(43, 10) == 63261);
}

/// The recurrence at 44.
proof fn lemma_partition_at_44()
    ensures
        partition_number(44) == 75175,
{
    lemma_pentagonal_values();
    lemma_partition_terms_stable(44, 10, 44);
    assert(partition_terms(44, 0) == 0);
    lemma_partition_at_43();
    assert(partition_terms(44, 1) == 63261);
    lemma_partition_at_42();
    assert(partition_terms(44, 2) == 116435);
    lemma_partition_at_39();
    assert(partition_terms(44, 3) == 85250);
    lemma_partition_at_37();
    assert(partition_terms(44, 4) == 63613);
    lemma_partition_at_32();
    assert(partition_terms(44, 5) == 71962);
    lemma_partition_at_29();
    assert(partition_terms(44, 6) == 76527);
    lemma_partition_at_22();
    assert(partition_terms(44, 7) == 75525);
    lemma_partition_at_18();
    assert(partition_terms(44, 8) == 75140);
    lemma_partition_at_9();
    assert(partition_terms(44, 9) == 75170);
    lemma_partition_at_4();
    assert(partition_terms(44, 10) == 75175);
}

/// The recurrence at 45.
proof fn lemma_partition_at_45()
    ensures
        partition_number(45) == 89134,
{
    lemma_pentagonal_values();
    lemma_partition_terms_stable(45, 10, 45);
    assert(partition_terms(45, 0) == 0);
    lemma_partition_at_44();
    assert(partition_terms(45, 1) == 75175);
    lemma_partition_at_43();
    assert(partition_terms(45, 2) == 138436);
    lemma_partition_at_40();
    assert(partition_terms(45, 3) == 101098);
    lemma_partition_at_38();
    assert(partition_terms(45, 4) == 75083);
    lemma_partition_at_33();
    assert(partition_terms(45, 5) == 85226);
    lemma_partition_at_30();
    assert(partition_terms(45, 6) == 90830);
    lemma_partition_at_23();
    assert(partition_terms(45, 7) == 89575);
    lemma_partition_at_19();
    assert(partition_terms(45, 8) == 89085);
    lemma_partition_at_10();
    assert(partition_terms(45, 9) == 89127);
    lemma_partition_at_5();
    assert(partition_terms(45, 10) == 89134);
}

/// The recurrence at 46.
proof fn lemma_partition_at_46()
    ensures
        partition_number(46) == 105558,
{
    lemma_pentagonal_values();
    lemma_partition_terms_stable(46, 10, 46);
    assert(partition_terms(46, 0) == 0);
    lemma_partition_at_45();
    assert(partition_terms(46, 1) == 89134);
    lemma_partition_at_44();
    assert(partition_terms(46, 2) == 164309);
    lemma_partition_at_41();
    assert(partition_terms(46, 3) == 119726);
    lemma_partition_at_39();
    assert(partition_terms(46, 4) == 88541);
    lemma_partition_at_34();
    assert(partition_terms(46, 5) == 100851);
    lemma_partition_at_31();
    assert(partition_terms(46, 6) == 107693);
    lemma_partition_at_24();
    assert(partition_terms(46, 7) == 106118);
    lemma_partition_at_20();
    assert(partition_terms(46, 8) == 105491);
    lemma_partition_at_11();
    assert(partition_terms(46, 9) == 105547);
    lemma_partition_at_6();
    assert(partition_terms(46, 10) == 105558);
}

/// The recurrence at 47.
proof fn lemma_partition_at_47()
    ensures
        partition_number(47) == 124754,
{
    lemma_pentagonal_values();
    lemma_partition_terms_stable(47, 10, 47);
    assert(partition_terms(47, 0) == 0);
    lemma_partition_at_46();
    assert(partition_terms(47, 1) == 105558);
    lemma_partition_at_45();
    assert(partition_terms(47, 2) == 194692);
    lemma_partition_at_42();
    assert(partition_terms(47, 3) == 141518);
    lemma_partition_at_40();
    assert(partition_terms(47, 4) == 104180);
    lemma_partition_at_35();
    assert(partition_terms(47, 5) == 119063);
    lemma_partition_at_32();
    assert(partition_terms(47, 6) == 127412);
    lemma_partition_at_25();
    assert(partition_terms(47, 7) == 125454);
    lemma_partition_at_21();
    assert(partition_terms(47, 8) == 124662);
    lemma_partition_at_12();
    assert(partition_terms(47, 9) == 124739);
    lemma_partition_at_7();
    assert(partition_terms(47, 10) == 124754);
}

/// The recurrence at 48.
proof fn lemma_partition_at_48()
    ensures
        partition_number(48) == 147273,
{
    lemma_pentagonal_values();
    lemma_partition_terms_stable(48, 10, 48);
    assert(partition_terms(48, 0) == 0);
    lemma_partition_at_47();
    assert(partition_terms(48, 1) == 124754);
    lemma_partition_at_46();
    assert(partition_terms(48, 2) == 230312);
    lemma_partition_at_43();
    assert(partition_terms(48, 3) == 167051);
    lemma_partition_at_41();
    assert(partition_terms(48, 4) == 122468);
    lemma_partition_at_36();
    assert(partition_terms(48, 5) == 140445);
    lemma_partition_at_33();
    assert(partition_terms(48, 6) == 150588);
    lemma_partition_at_26();
    assert(partition_terms(48, 7) == 148152);
    lemma_partition_at_22();
    assert(partition_terms(48, 8) == 147150);
    lemma_partition_at_13();
    assert(partition_terms(48, 9) == 147251);
    lemma_partition_at_8();
    assert(partition_terms(48, 10) == 147273);
}

/// The recurrence at 49.
proof fn lemma_partition_at_49()
    ensures
        partition_number(49) == 173525,
{
    lemma_pentagonal_values();
    lemma_partition_terms_stable(49, 10, 49);
    assert(partition_terms(49, 0) == 0);
    lemma_partition_at_48();
    assert(partition_terms(49, 1) == 147273);
    lemma_partition_at_47();
    assert(partition_terms(49, 2) == 272027);
    lemma_partition_at_44();
    assert(partition_terms(49, 3) == 196852);
    lemma_partition_at_42();
    assert(partition_terms(49, 4) == 143678);
    lemma_partition_at_37();
    assert(partition_terms(49, 5) == 165315);
    lemma_partition_at_34();
    assert(partition_terms(49, 6) == 177625);
    lemma_partition_at_27();
    assert(partition_terms(49, 7) == 174615);
    lemma_partition_at_23();
    assert(partition_terms(49, 8) == 173360);
    lemma_partition_at_14();
    assert(partition_terms(49, 9) == 173495);
    lemma_partition_at_9();
    assert(partition_terms(49, 10) == 173525);
}

/// The recurrence at 50.
proof fn lemma_partition_at_50()
    ensures
        partition_number(50) == 204226,
{
    lemma_pentagonal_values();
    lemma_partition_terms_stable(50, 10, 50);
    assert(partition_terms(50, 0) == 0);
    lemma_partition_at_49();
    assert(partition_terms(50, 1) == 173525);
    lemma_partition_at_48();
    assert(partition_terms(50, 2) == 320798);
    lemma_partition_at_45();
    assert(partition_terms(50, 3) == 231664);
    lemma_partition_at_43();
    assert(partition_terms(50, 4) == 168403);
    lemma_partition_at_38();
    assert(partition_terms(50, 5) == 194418);
    lemma_partition_at_35();
    assert(partition_terms(50, 6) == 209301);
    lemma_partition_at_28();
    assert(partition_terms(50, 7) == 205583);
    lemma_partition_at_24();
    assert(partition_terms(50, 8) == 204008);
    lemma_partition_at_15();
    assert(partition_terms(50, 9) == 204184);
    lemma_partition_at_10();
    assert(partition_terms(50, 10) == 204226);
}

/// The recurrence at 51.
proof fn lemma_partition_at_51()
    ensures
        partition_number(51) == 239943,
{
    lemma_pentagonal_values();
    lemma_partition_terms_stable(51, 11, 51);
    assert(partition_terms(51, 0) == 0);
    lemma_partition_at_50();
    assert(partition_terms(51, 1) == 204226);
    lemma_partition_at_49();
    assert(partition_terms(51, 2) == 377751);
    lemma_partition_at_46();
    assert(partition_terms(51, 3) == 272193);
    lemma_partition_at_44();
    assert(partition_terms(51, 4) == 197018);
    lemma_partition_at_39();
    assert(partition_terms(51, 5) == 228203);
    lemma_partition_at_36();
    assert(partition_terms(51, 6) == 246180);
    lemma_partition_at_29();
    assert(partition_terms(51, 7) == 241615);
    lemma_partition_at_25();
    assert(partition_terms(51, 8) == 239657);
    lemma_partition_at_16();
    assert(partition_terms(51, 9) == 239888);
    lemma_partition_at_11();
    assert(partition_terms(51, 10) == 239944);
    lemma_partition_at_0();
    assert(partition_terms(51, 11) == 239943);
}

/// The recurrence at 52.
proof fn lemma_partition_at_52()
    ensures
        partition_number(52) == 281589,
{
    lemma_pentagonal_values();
    lemma_partition_terms_stable(52, 11, 52);
    assert(partition_terms(52, 0) == 0);
    lemma_partition_at_51();
    assert(partition_terms(52, 1) == 239943);
    lemma_partition_at_50();
    assert(partition_terms(52, 2) == 444169);
    lemma_partition_at_47();
    assert(partition_terms(52, 3) == 319415);
    lemma_partition_at_45();
    assert(partition_terms(52, 4) == 230281);
    lemma_partition_at_40();
    assert(partition_terms(52, 5) == 267619);
    lemma_partition_at_37();
    assert(partition_terms(52, 6) == 289256);
    lemma_partition_at_30();
    assert(partition_terms(52, 7) == 283652);
    lemma_partition_at_26();
    assert(partition_terms(52, 8) == 281216);
    lemma_partition_at_17();
    assert(partition_terms(52, 9) == 281513);
    lemma_partition_at_12();
    assert(partition_terms(52, 10) == 281590);
    lemma_partition_at_1();
    assert(partition_terms(52, 11) == 281589);
}

/// The recurrence at 53.
proof fn lemma_partition_at_53()
    ensures
        partition_number(53) == 329931,
{
    lemma_pentagonal_values();
    lemma_partition_terms_stable(53, 11, 53);
    assert(partition_terms(53, 0) == 0);
    lemma_partition_at_52();
    assert(partition_terms(53, 1) == 281589);
    lemma_partition_at_51();
    assert(partition_terms(53, 2) == 521532);
    lemma_partition_at_48();
    assert(partition_terms(53, 3) == 374259);
    lemma_partition_at_46();
    assert(partition_terms(53, 4) == 268701);
    lemma_partition_at_41();
    assert(partition_terms(53, 5) == 313284);
    lemma_partition_at_38();
    assert(partition_terms(53, 6) == 339299);
    lemma_partition_at_31();
    assert(partition_terms(53, 7) == 332457);
    lemma_partition_at_27();
    assert(partition_terms(53, 8) == 329447);
    lemma_partition_at_18();
    assert(partition_terms(53, 9) == 329832);
    lemma_partition_at_13();
    assert(partition_terms(53, 10) == 329933);
    lemma_partition_at_2();
    assert(partition_terms(53, 11) == 329931);
}

/// The recurrence at 54.
proof fn lemma_partition_at_54()
    ensures
        partition_number(54) == 386155,
{
    lemma_pentagonal_values();
    lemma_partition_terms_stable(54, 11, 54);
    assert(partition_terms(54, 0) == 0);
    lemma_partition_at_53();
    assert(partition_terms(54, 1) == 329931);
    lemma_partition_at_52();
    assert(partition_terms(54, 2) == 611520);
    lemma_partition_at_49();
    assert(partition_terms(54, 3) == 437995);
    lemma_partition_at_47();
    assert(partition_terms(54, 4) == 313241);
    lemma_partition_at_42();
    assert(partition_terms(54, 5) == 366415);
    lemma_partition_at_39();
    assert(partition_terms(54, 6) == 397600);
    lemma_partition_at_32();
    assert(partition_terms(54, 7) == 389251);
    lemma_partition_at_28();
    assert(partition_terms(54, 8) == 385533);
    lemma_partition_at_19();
    assert(partition_terms(54, 9) == 386023);
    lemma_partition_at_14();
    assert(partition_terms(54, 10) == 386158);
    lemma_partition_at_3();
    assert(partition_terms(54, 11) == 386155);
}

/// The recurrence at 55.
proof fn lemma_partition_at_55()
    ensures
        partition_number(55) == 451276,
{
    lemma_pentagonal_values();
    lemma_partition_terms_stable(55, 11, 55);
    assert(partition_terms(55, 0) == 0);
    lemma_partition_at_54();
    assert(partition_terms(55, 1) == 386155);
    lemma_partition_at_53();
    assert(partition_terms(55, 2) == 716086);
    lemma_partition_at_50();
    assert(partition_terms(55, 3) == 511860);
    lemma_partition_at_48();
    assert(partition_terms(55, 4) == 364587);
    lemma_partition_at_43();
    assert(partition_terms(55, 5) == 427848);
    lemma_partition_at_40();
    assert(partition_terms(55, 6) == 465186);
    lemma_partition_at_33();
    assert(partition_terms(55, 7) == 455043);
    lemma_partition_at_29();
    assert(partition_terms(55, 8) == 450478);
    lemma_partition_at_20();
    assert(partition_terms(55, 9) == 451105);
    lemma_partition_at_15();
    assert(partition_terms(55, 10) == 451281);
    lemma_partition_at_4();
    assert(partition_terms(55, 11) == 451276);
}

/// The recurrence at 56.
proof fn lemma_partition_at_56()
    ensures
        partition_number(56) == 526823,
{
    lemma_pentagonal_values();
    lemma_partition_terms_stable(56, 11, 56);
    assert(partition_terms(56, 0) == 0);
    lemma_partition_at_55();
    assert(partition_terms(56, 1) == 451276);
    lemma_partition_at_54();
    assert(partition_terms(56, 2) == 837431);
    lemma_partition_at_51();
    assert(partition_terms(56, 3) == 597488);
    lemma_partition_at_49();
    assert(partition_terms(56, 4) == 423963);
    lemma_partition_at_44();
    assert(partition_terms(56, 5) == 499138);
    lemma_partition_at_41();
    assert(partition_terms(56, 6) == 543721);
    lemma_partition_at_34();
    assert(partition_terms(56, 7) == 531411);
    lemma_partition_at_30();
    assert(partition_terms(56, 8) == 525807);
    lemma_partition_at_21();
    assert(partition_terms(56, 9) == 526599);
    lemma_partition_at_16();
    assert(partition_terms(56, 10) == 526830);
    lemma_partition_at_5();
    assert(partition_terms(56, 11) == 526823);
}

/// The recurrence at 57.
proof fn lemma_partition_at_57()
    ensures
        partition_number(57) == 614154,
{
    lemma_pentagonal_values();
    lemma_partition_terms_stable(57, 12, 57);
    assert(partition_terms(57, 0) == 0);
    lemma_partition_at_56();
    assert(partition_terms(57, 1) == 526823);
    lemma_partition_at_55();
    assert(partition_terms(57, 2) == 978099);
    lemma_partition_at_52();
    assert(partition_terms(57, 3) == 696510);
    lemma_partition_at_50();
    assert(partition_terms(57, 4) == 492284);
    lemma_partition_at_45();
    assert(partition_terms(57, 5) == 581418);
    lemma_partition_at_42();
    assert(partition_terms(57, 6) == 634592);
    lemma_partition_at_35();
    assert(partition_terms(57, 7) == 619709);
    lemma_partition_at_31();
    assert(partition_terms(57, 8) == 612867);
    lemma_partition_at_22();
    assert(partition_terms(57, 9) == 613869);
    lemma_partition_at_17();
    assert(partition_terms(57, 10) == 614166);
    lemma_partition_at_6();
    assert(partition_terms(57, 11) == 614155);
    lemma_partition_at_0();
    assert(partition_terms(57, 12) == 614154);
}

/// The recurrence at 58.
proof fn lemma_partition_at_58()
    ensures
        partition_number(58) == 715220,
{
    lemma_pentagonal_values();
    lemma_partition_terms_stable(58, 12, 58);
    assert(partition_terms(58, 0) == 0);
    lemma_partition_at_57();
    assert(partition_terms(58, 1) == 614154);
    lemma_partition_at_56();
    assert(partition_terms(58, 2) == 1140977);
    lemma_partition_at_53();
    assert(partition_terms(58, 3) == 811046);
    lemma_partition_at_51();
    assert(partition_terms(58, 4) == 571103);
    lemma_partition_at_46();
    assert(partition_terms(58, 5) == 676661);
    lemma_partition_at_43();
    assert(partition_terms(58, 6) == 739922);
    lemma_partition_at_36();
    assert(partition_terms(58, 7) == 721945);
    lemma_partition_at_32();
    assert(partition_terms(58, 8) == 713596);
    lemma_partition_at_23();
    assert(partition_terms(58, 9) == 714851);
    lemma_partition_at_18();
    assert(partition_terms(58, 10) == 715236);
    lemma_partition_at_7();
    assert(partition_terms(58, 11) == 715221);
    lemma_partition_at_1();
    assert(partition_terms(58, 12) == 715220);
}

/// The recurrence at 59.
proof fn lemma_partition_at_59()
    ensures
        partition_number(59) == 831820,
{
    lemma_pentagonal_values();
    lemma_partition_terms_stable(59, 12, 59);
    assert(partition_terms(59, 0) == 0);
    lemma_partition_at_58();
    assert(partition_terms(59, 1) == 715220);
    lemma_partition_at_57();
    assert(partition_terms(59, 2) == 1329374);
    lemma_partition_at_54();
    assert(partition_terms(59, 3) == 943219);
    lemma_partition_at_52();
    assert(partition_terms(59, 4) == 661630);
    lemma_partition_at_47();
    assert(partition_terms(59, 5) == 786384);
    lemma_partition_at_44();
    assert(partition_terms(59, 6) == 861559);
    lemma_partition_at_37();
    assert(partition_terms(59, 7) == 839922);
    lemma_partition_at_33();
    assert(partition_terms(59, 8) == 829779);
    lemma_partition_at_24();
    assert(partition_terms(59, 9) == 831354);
    lemma_partition_at_19();
    assert(partition_terms(59, 10) == 831844);
    lemma_partition_at_8();
    assert(partition_terms(59, 11) == 831822);
    lemma_partition_at_2();
    assert(partition_terms(59, 12) == 831820);
}

/// The recurrence at 60.
proof fn lemma_partition_at_60()
    ensures
        partition_number(60) == 966467,
{
    lemma_pentagonal_values();
    lemma_partition_terms_stable(60, 12, 60);
    assert(partition_terms(60, 0) == 0);
    lemma_partition_at_59();
    assert(partition_terms(60, 1) == 831820);
    lemma_partition_at_58();
    assert(partition_terms(60, 2) == 1547040);
    lemma_partition_at_55();
    assert(partition_terms(60, 3) == 1095764);
    lemma_partition_at_53();
    assert(partition_terms(60, 4) == 765833);
    lemma_partition_at_48();
    assert(partition_terms(60, 5) == 913106);
    lemma_partition_at_45();
    assert(partition_terms(60, 6) == 1002240);
    lemma_partition_at_38();
    assert(partition_terms(60, 7) == 976225);
    lemma_partition_at_34();
    assert(partition_terms(60, 8) == 963915);
    lemma_partition_at_25();
    assert(partition_terms(60, 9) == 965873);
    lemma_partition_at_20();
    assert(partition_terms(60, 10) == 966500);
    lemma_partition_at_9();
    assert(partition_terms(60, 11) == 966470);
    lemma_partition_at_3();
    assert(partition_terms(60, 12) == 966467);
}

/// The recurrence at 61.
proof fn lemma_partition_at_61()
    ensures
        partition_number(61) == 1121505,
{
    lemma_pentagonal_values();
    lemma_partition_terms_stable(61, 12, 61);
    assert(partition_terms(61, 0) == 0);
    lemma_partition_at_60();
    assert(partition_terms(61, 1) == 966467);
    lemma_partition_at_59();
    assert(partition_terms(61, 2) == 1798287);
    lemma_partition_at_56();
    assert(partition_terms(61, 3) == 1271464);
    lemma_partition_at_54();
    assert(partition_terms(61, 4) == 885309);
    lemma_partition_at_49();
    assert(partition_terms(61, 5) == 1058834);
    lemma_partition_at_46();
    assert(partition_terms(61, 6) == 1164392);
    lemma_partition_at_39();
    assert(partition_terms(61, 7) == 1133207);
    lemma_partition_at_35();
    assert(partition_terms(61, 8) == 1118324);
    lemma_partition_at_26();
    assert(partition_terms(61, 9) == 1120760);
    lemma_partition_at_21();
    assert(partition_terms(61, 10) == 1121552);
    lemma_partition_at_10();
    assert(partition_terms(61, 11) == 1121510);
    lemma_partition_at_4();
    assert(partition_terms(61, 12) == 1121505);
}

/// The recurrence at 62.
proof fn lemma_partition_at_62()
    ensures
        partition_number(62) == 1300156,
{
    lemma_pentagonal_values();
    lemma_partition_terms_stable(62, 12, 62);
    assert(partition_terms(62, 0) == 0);
    lemma_partition_at_61();
    assert(partition_terms(62, 1) == 1121505);
    lemma_partition_at_60();
    assert(partition_terms(62, 2) == 2087972);
    lemma_partition_at_57();
    assert(partition_terms(62, 3) == 1473818);
    lemma_partition_at_55();
    assert(partition_terms(62, 4) == 1022542);
    lemma_partition_at_50();
    assert(partition_terms(62, 5) == 1226768);
    lemma_partition_at_47();
    assert(partition_terms(62, 6) == 1351522);
    lemma_partition_at_40();
    assert(partition_terms(62, 7) == 1314184);
    lemma_partition_at_36();
    assert(partition_terms(62, 8) == 1296207);
    lemma_partition_at_27();
    assert(partition_terms(62, 9) == 1299217);
    lemma_partition_at_22();
    assert(partition_terms(62, 10) == 1300219);
    lemma_partition_at_11();
    assert(partition_terms(62, 11) == 1300163);
    lemma_partition_at_5();
    assert(partition_terms(62, 12) == 1300156);
}

/// The recurrence at 63.
proof fn lemma_partition_at_63()
    ensures
        partition_number(63) == 1505499,
{
    lemma_pentagonal_values();
    lemma_partition_terms_stable(63, 12, 63);
    assert(partition_terms(63, 0) == 0);
    lemma_partition_at_62();
    assert(partition_terms(63, 1) == 1300156);
    lemma_partition_at_61();
    assert(partition_terms(63, 2) == 2421661);
    lemma_partition_at_58();
    assert(partition_terms(63, 3) == 1706441);
    lemma_partition_at_56();
    assert(partition_terms(63, 4) == 1179618);
    lemma_partition_at_51();
    assert(partition_terms(63, 5) == 1419561);
    lemma_partition_at_48();
    assert(partition_terms(63, 6) == 1566834);
    lemma_partition_at_41();
    assert(partition_terms(63, 7) == 1522251);
    lemma_partition_at_37();
    assert(partition_terms(63, 8) == 1500614);
    lemma_partition_at_28();
    assert(partition_terms(63, 9) == 1504332);
    lemma_partition_at_23();
    assert(partition_terms(63, 10) == 1505587);
    lemma_partition_at_12();
    assert(partition_terms(63, 11) == 1505510);
    lemma_partition_at_6();
    assert(partition_terms(63, 12) == 1505499);
}

/// The recurrence at 64.
proof fn lemma_partition_at_64()
    ensures
        partition_number(64) == 1741630,
{
    lemma_pentagonal_values();
    lemma_partition_terms_stable(64, 12, 64);
    assert(partition_terms(64, 0) == 0);
    lemma_partition_at_63();
    assert(partition_terms(64, 1) == 1505499);
    lemma_partition_at_62();
    assert(partition_terms(64, 2) == 2805655);
    lemma_partition_at_59();
    assert(partition_terms(64, 3) == 1973835);
    lemma_partition_at_57();
    assert(partition_terms(64, 4) == 1359681);
    lemma_partition_at_52();
    assert(partition_terms(64, 5) == 1641270);
    lemma_partition_at_49();
    assert(partition_terms(64, 6) == 1814795);
    lemma_partition_at_42();
    assert(partition_terms(64, 7) == 1761621);
    lemma_partition_at_38();
    assert(partition_terms(64, 8) == 1735606);
    lemma_partition_at_29();
    assert(partition_terms(64, 9) == 1740171);
    lemma_partition_at_24();
    assert(partition_terms(64, 10) == 1741746);
    lemma_partition_at_13();
    assert(partition_terms(64, 11) == 1741645);
    lemma_partition_at_7();
    assert(partition_terms(64, 12) == 1741630);
}

/// The recurrence at 65.
proof fn lemma_partition_at_65()
    ensures
        partition_number(65) == 2012558,
{
    lemma_pentagonal_values();
    lemma_partition_terms_stable(65, 12, 65);
    assert(partition_terms(65, 0) == 0);
    lemma_partition_at_64();
    assert(partition_terms(65, 1) == 1741630);
    lemma_partition_at_63();
    assert(partition_terms(65, 2) == 3247129);
    lemma_partition_at_60();
    assert(partition_terms(65, 3) == 2280662);
    lemma_partition_at_58();
    assert(partition_terms(65, 4) == 1565442);
    lemma_partition_at_53();
    assert(partition_terms(65, 5) == 1895373);
    lemma_partition_at_50();
    assert(partition_terms(65, 6) == 2099599);
    lemma_partition_at_43();
    assert(partition_terms(65, 7) == 2036338);
    lemma_partition_at_39();
    assert(partition_terms(65, 8) == 2005153);
    lemma_partition_at_30();
    assert(partition_terms(65, 9) == 2010757);
    lemma_partition_at_25();
    assert(partition_terms(65, 10) == 2012715);
    lemma_partition_at_14();
    assert(partition_terms(65, 11) == 2012580);
    lemma_partition_at_8();
    assert(partition_terms(65, 12) == 2012558);
}

/// The recurrence at 66.
proof fn lemma_partition_at_66()
    ensures
        partition_number(66) == 2323520,
{
    lemma_pentagonal_values();
    lemma_partition_terms_stable(66, 12, 66);
    assert(partition_terms(66, 0) == 0);
    lemma_partition_at_65();
    assert(partition_terms(66, 1) == 2012558);
    lemma_partition_at_64();
    assert(partition_terms(66, 2) == 3754188);
    lemma_partition_at_61();
    assert(partition_terms(66, 3) == 2632683);
    lemma_partition_at_59();
    assert(partition_terms(66, 4) == 1800863);
    lemma_partition_at_54();
    assert(partition_terms(66, 5) == 2187018);
    lemma_partition_at_51();
    assert(partition_terms(66, 6) == 2426961);
    lemma_partition_at_44();
    assert(partition_terms(66, 7) == 2351786);
    lemma_partition_at_40();
    assert(partition_terms(66, 8) == 2314448);
    lemma_partition_at_31();
    assert(partition_terms(66, 9) == 2321290);
    lemma_partition_at_26();
    assert(partition_terms(66, 10) == 2323726);
    lemma_partition_at_15();
    assert(partition_terms(66, 11) == 2323550);
    lemma_partition_at_9();
    assert(partition_terms(66, 12) == 2323520);
}

/// The recurrence at 67.
proof fn lemma_partition_at_67()
    ensures
        partition_number(67) == 2679689,
{
    lemma_pentagonal_values();
    lemma_partition_terms_stable(67, 12, 67);
    assert(partition_terms(67, 0) == 0);
    lemma_partition_at_66();
    assert(partition_terms(67, 1) == 2323520);
    lemma_partition_at_65();
    assert(partition_terms(67, 2) == 4336078);
    lemma_partition_at_62();
    assert(partition_terms(67, 3) == 3035922);
    lemma_partition_at_60();
    assert(partition_terms(67, 4) == 2069455);
    lemma_partition_at_55();
    assert(partition_terms(67, 5) == 2520731);
    lemma_partition_at_52();
    assert(partition_terms(67, 6) == 2802320);
    lemma_partition_at_45();
    assert(partition_terms(67, 7) == 2713186);
    lemma_partition_at_41();
    assert(partition_terms(67, 8) == 2668603);
    lemma_partition_at_32();
    assert(partition_terms(67, 9) == 2676952);
    lemma_partition_at_27();
    assert(partition_terms(67, 10) == 2679962);
    lemma_partition_at_16();
    assert(partition_terms(67, 11) == 2679731);
    lemma_partition_at_10();
    assert(partition_terms(67, 12) == 2679689);
}

/// The recurrence at 68.
proof fn lemma_partition_at_68()
    ensures
        partition_number(68) == 3087735,
{
    lemma_pentagonal_values();
    lemma_partition_terms_stable(68, 12, 68);
    assert(partition_terms(68, 0) == 0);
    lemma_partition_at_67();
    assert(partition_terms(68, 1) == 2679689);
    lemma_partition_at_66();
    assert(partition_terms(68, 2) == 5003209);
    lemma_partition_at_63();
    assert(partition_terms(68, 3) == 3497710);
    lemma_partition_at_61();
    assert(partition_terms(68, 4) == 2376205);
    lemma_partition_at_56();
    assert(partition_terms(68, 5) == 2903028);
    lemma_partition_at_53();
    assert(partition_terms(68, 6) == 3232959);
    lemma_partition_at_46();
    assert(partition_terms(68, 7) == 3127401);
    lemma_partition_at_42();
    assert(partition_terms(68, 8) == 3074227);
    lemma_partition_at_33();
    assert(partition_terms(68, 9) == 3084370);
    lemma_partition_at_28();
    assert(partition_terms(68, 10) == 3088088);
    lemma_partition_at_17();
    assert(partition_terms(68, 11) == 3087791);
    lemma_partition_at_11();
    assert(partition_terms(68, 12) == 3087735);
}

/// The recurrence at 69.
proof fn lemma_partition_at_69()
    ensures
        partition_number(69) == 3554345,
{
    lemma_pentagonal_values();
    lemma_partition_terms_stable(69, 12, 69);
    assert(partition_terms(69, 0) == 0);
    lemma_partition_at_68();
    assert(partition_terms(69, 1) == 3087735);
    lemma_partition_at_67();
    assert(partition_terms(69, 2) == 5767424);
    lemma_partition_at_64();
    assert(partition_terms(69, 3) == 4025794);
    lemma_partition_at_62();
    assert(partition_terms(69, 4) == 2725638);
    lemma_partition_at_57();
    assert(partition_terms(69, 5) == 3339792);
    lemma_partition_at_54();
    assert(partition_terms(69, 6) == 3725947);
    lemma_partition_at_47();
    assert(partition_terms(69, 7) == 3601193);
    lemma_partition_at_43();
    assert(partition_terms(69, 8) == 3537932);
    lemma_partition_at_34();
    assert(partition_terms(69, 9) == 3550242);
    lemma_partition_at_29();
    assert(partition_terms(69, 10) == 3554807);
    lemma_partition_at_18();
    assert(partition_terms(69, 11) == 3554422);
    lemma_partition_at_12();
    assert(partition_terms(69, 12) == 3554345);
}

/// The recurrence at 70.
proof fn lemma_partition_at_70()
    ensures
        partition_number(70) == 4087968,
{
    lemma_pentagonal_values();
    lemma_partition_terms_stable(70, 13, 70);
    assert(partition_terms(70, 0) == 0);
    lemma_partition_at_69();
    assert(partition_terms(70, 1) == 3554345);
    lemma_partition_at_68();
    assert(partition_terms(70, 2) == 6642080);
    lemma_partition_at_65();
    assert(partition_terms(70, 3) == 4629522);
    lemma_partition_at_63();
    assert(partition_terms(70, 4) == 3124023);
    lemma_partition_at_58();
    assert(partition_terms(70, 5) == 3839243);
    lemma_partition_at_55();
    assert(partition_terms(70, 6) == 4290519);
    lemma_partition_at_48();
    assert(partition_terms(70, 7) == 4143246);
    lemma_partition_at_44();
    assert(partition_terms(70, 8) == 4068071);
    lemma_partition_at_35();
    assert(partition_terms(70, 9) == 4082954);
    lemma_partition_at_30();
    assert(partition_terms(70, 10) == 4088558);
    lemma_partition_at_19();
    assert(partition_terms(70, 11) == 4088068);
    lemma_partition_at_13();
    assert(partition_terms(70, 12) == 4087967);
    lemma_partition_at_0();
    assert(partition_terms(70, 13) == 4087968);
}

/// The recurrence at 71.
proof fn lemma_partition_at_71()
    ensures
        partition_number(71) == 4697205,
{
    lemma_pentagonal_values();
    lemma_partition_terms_stable(71, 13, 71);
    assert(partition_terms(71, 0) == 0);
    lemma_partition_at_70();
    assert(partition_terms(71, 1) == 4087968);
    lemma_partition_at_69();
    assert(partition_terms(71, 2) == 7642313);
    lemma_partition_at_66();
    assert(partition_terms(71, 3) == 5318793);
    lemma_partition_at_64();
    assert(partition_terms(71, 4) == 3577163);
    lemma_partition_at_59();
    assert(partition_terms(71, 5) == 4408983);
    lemma_partition_at_56();
    assert(partition_terms(71, 6) == 4935806);
    lemma_partition_at_49();
    assert(partition_terms(71, 7) == 4762281);
    lemma_partition_at_45();
    assert(partition_terms(71, 8) == 4673147);
    lemma_partition_at_36();
    assert(partition_terms(71, 9) == 4691124);
    lemma_partition_at_31();
    assert(partition_terms(71, 10) == 4697966);
    lemma_partition_at_20();
    assert(partition_terms(71, 11) == 4697339);
    lemma_partition_at_14();
    assert(partition_terms(71, 12) == 4697204);
    lemma_partition_at_1();
    assert(partition_terms(71, 13) == 4697205);
}

/// The recurrence at 72.
proof fn lemma_partition_at_72()
    ensures
        partition_number(72) == 5392783,
{
    lemma_pentagonal_values();
    lemma_partition_terms_stable(72, 13, 72);
    assert(partition_terms(72, 0) == 0);
    lemma_partition_at_71();
    assert(partition_terms(72, 1) == 4697205);
    lemma_partition_at_70();
    assert(partition_terms(72, 2) == 8785173);
    lemma_partition_at_67();
    assert(partition_terms(72, 3) == 6105484);
    lemma_partition_at_65();
    assert(partition_terms(72, 4) == 4092926);
    lemma_partition_at_60();
    assert(partition_terms(72, 5) == 5059393);
    lemma_partition_at_57();
    assert(partition_terms(72, 6) == 5673547);
    lemma_partition_at_50();
    assert(partition_terms(72, 7) == 5469321);
    lemma_partition_at_46();
    assert(partition_terms(72, 8) == 5363763);
    lemma_partition_at_37();
    assert(partition_terms(72, 9) == 5385400);
    lemma_partition_at_32();
    assert(partition_terms(72, 10) == 5393749);
    lemma_partition_at_21();
    assert(partition_terms(72, 11) == 5392957);
    lemma_partition_at_15();
    assert(partition_terms(72, 12) == 5392781);
    lemma_partition_at_2();
    assert(partition_terms(72, 13) == 5392783);
}

/// The recurrence at 73.
proof fn lemma_partition_at_73()
    ensures
        partition_number(73) == 6185689,
{
    lemma_pentagonal_values();
    lemma_partition_terms_stable(73, 13, 73);
    assert(partition_terms(73, 0) == 0);
    lemma_partition_at_72();
    assert(partition_terms(73, 1) == 5392783);
    lemma_partition_at_71();
    assert(partition_terms(73, 2) == 10089988);
    lemma_partition_at_68();
    assert(partition_terms(73, 3) == 7002253);
    lemma_partition_at_66();
    assert(partition_terms(73, 4) == 4678733);
    lemma_partition_at_61();
    assert(partition_terms(73, 5) == 5800238);
    lemma_partition_at_58();
    assert(partition_terms(73, 6) == 6515458);
    lemma_partition_at_51();
    assert(partition_terms(73, 7) == 6275515);
    lemma_partition_at_47();
    assert(partition_terms(73, 8) == 6150761);
    lemma_partition_at_38();
    assert(partition_terms(73, 9) == 6176776);
    lemma_partition_at_33();
    assert(partition_terms(73, 10) == 6186919);
    lemma_partition_at_22();
    assert(partition_terms(73, 11) == 6185917);
    lemma_partition_at_16();
    assert(partition_terms(73, 12) == 6185686);
    lemma_partition_at_3();
    assert(partition_terms(73, 13) == 6185689);
}

/// The recurrence at 74.
proof fn lemma_partition_at_74()
    ensures
        partition_number(74) == 7089500,
{
    lemma_pentagonal_values();
    lemma_partition_terms_stable(74, 13, 74);
    assert(partition_terms(74, 0) == 0);
    lemma_partition_at_73();
    assert(partition_terms(74, 1) == 6185689);
    lemma_partition_at_72();
    assert(partition_terms(74, 2) == 11578472);
    lemma_partition_at_69();
    assert(partition_terms(74, 3) == 8024127);
    lemma_partition_at_67();
    assert(partition_terms(74, 4) == 5344438);
    lemma_partition_at_62();
    assert(partition_terms(74, 5) == 6644594);
    lemma_partition_at_59();
    assert(partition_terms(74, 6) == 7476414);
    lemma_partition_at_52();
    assert(partition_terms(74, 7) == 7194825);
    lemma_partition_at_48();
    assert(partition_terms(74, 8) == 7047552);
    lemma_partition_at_39();
    assert(partition_terms(74, 9) == 7078737);
    lemma_partition_at_34();
    assert(partition_terms(74, 10) == 7091047);
    lemma_partition_at_23();
    assert(partition_terms(74, 11) == 7089792);
    lemma_partition_at_17();
    assert(partition_terms(74, 12) == 7089495);
    lemma_partition_at_4();
    assert(partition_terms(74, 13) == 7089500);
}

/// The recurrence at 75.
proof fn lemma_partition_at_75()
    ensures
        partition_number(75) == 8118264,
{
    lemma_pentagonal_values();
    lemma_partition_terms_stable(75, 13, 75);
    assert(partition_terms(75, 0) == 0);
    lemma_partition_at_74();
    assert(partition_terms(75, 1) == 7089500);
    lemma_partition_at_73();
    assert(partition_terms(75, 2) == 13275189);
    lemma_partition_at_70();
    assert(partition_terms(75, 3) == 9187221);
    lemma_partition_at_68();
    assert(partition_terms(75, 4) == 6099486);
    lemma_partition_at_63();
    assert(partition_terms(75, 5) == 7604985);
    lemma_partition_at_60();
    assert(partition_terms(75, 6) == 8571452);
    lemma_partition_at_53();
    assert(partition_terms(75, 7) == 8241521);
    lemma_partition_at_49();
    assert(partition_terms(75, 8) == 8067996);
    lemma_partition_at_40();
    assert(partition_terms(75, 9) == 8105334);
    lemma_partition_at_35();
    assert(partition_terms(75, 10) == 8120217);
    lemma_partition_at_24();
    assert(partition_terms(75, 11) == 8118642);
    lemma_partition_at_18();
    assert(partition_terms(75, 12) == 8118257);
    lemma_partition_at_5();
    assert(partition_terms(75, 13) == 8118264);
}

/// The recurrence at 76.
proof fn lemma_partition_at_76()
    ensures
        partition_number(76) == 9289091,
{
    lemma_pentagonal_values();
    lemma_partition_terms_stable(76, 13, 76);
    assert(partition_terms(76, 0) == 0);
    lemma_partition_at_75();
    assert(partition_terms(76, 1) == 8118264);
    lemma_partition_at_74();
    assert(partition_terms(76, 2) == 15207764);
    lemma_partition_at_71();
    assert(partition_terms(76, 3) == 10510559);
    lemma_partition_at_69();
    assert(partition_terms(76, 4) == 6956214);
    lemma_partition_at_64();
    assert(partition_terms(76, 5) == 8697844);
    lemma_partition_at_61();
    assert(partition_terms(76, 6) == 9819349);
    lemma_partition_at_54();
    assert(partition_terms(76, 7) == 9433194);
    lemma_partition_at_50();
    assert(partition_terms(76, 8) == 9228968);
    lemma_partition_at_41();
    assert(partition_terms(76, 9) == 9273551);
    lemma_partition_at_36();
    assert(partition_terms(76, 10) == 9291528);
    lemma_partition_at_25();
    assert(partition_terms(76, 11) == 9289570);
    lemma_partition_at_19();
    assert(partition_terms(76, 12) == 9289080);
    lemma_partition_at_6();
    assert(partition_terms(76, 13) == 9289091);
}

/// The recurrence at 77.
proof fn lemma_partition_at_77()
    ensures
        partition_number(77) == 10619863,
{
    lemma_pentagonal_values();
    lemma_partition_terms_stable(77, 14, 77);
    assert(partition_terms(77, 0) == 0);
    lemma_partition_at_76();
    assert(partition_terms(77, 1) == 9289091);
    lemma_partition_at_75();
    assert(partition_terms(77, 2) == 17407355);
    lemma_partition_at_72();
    assert(partition_terms(77, 3) == 12014572);
    lemma_partition_at_70();
    assert(partition_terms(77, 4) == 7926604);
    lemma_partition_at_65();
    assert(partition_terms(77, 5) == 9939162);
    lemma_partition_at_62();
    assert(partition_terms(77, 6) == 11239318);
    lemma_partition_at_55();
    assert(partition_terms(77, 7) == 10788042);
    lemma_partition_at_51();
    assert(partition_terms(77, 8) == 10548099);
    lemma_partition_at_42();
    assert(partition_terms(77, 9) == 10601273);
    lemma_partition_at_37();
    assert(partition_terms(77, 10) == 10622910);
    lemma_partition_at_26();
    assert(partition_terms(77, 11) == 10620474);
    lemma_partition_at_20();
    assert(partition_terms(77, 12) == 10619847);
    lemma_partition_at_7();
    assert(partition_terms(77, 13) == 10619862);
    lemma_partition_at_0();
    assert(partition_terms(77, 14) == 10619863);
}

/// The recurrence at 78.
proof fn lemma_partition_at_78()
    ensures
        partition_number(78) == 12132164,
{
    lemma_pentagonal_values();
    lemma_partition_terms_stable(78, 14, 78);
    assert(partition_terms(78, 0) == 0);
    lemma_partition_at_77();
    assert(partition_terms(78, 1) == 10619863);
    lemma_partition_at_76();
    assert(partition_terms(78, 2) == 19908954);
    lemma_partition_at_73();
    assert(partition_terms(78, 3) == 13723265);
    lemma_partition_at_71();
    assert(partition_terms(78, 4) == 9026060);
    lemma_partition_at_66();
    assert(partition_terms(78, 5) == 11349580);
    lemma_partition_at_63();
    assert(partition_terms(78, 6) == 12855079);
    lemma_partition_at_56();
    assert(partition_terms(78, 7) == 12328256);
    lemma_partition_at_52();
    assert(partition_terms(78, 8) == 12046667);
    lemma_partition_at_43();
    assert(partition_terms(78, 9) == 12109928);
    lemma_partition_at_38();
    assert(partition_terms(78, 10) == 12135943);
    lemma_partition_at_27();
    assert(partition_terms(78, 11) == 12132933);
    lemma_partition_at_21();
    assert(partition_terms(78, 12) == 12132141);
    lemma_partition_at_8();
    assert(partition_terms(78, 13) == 12132163);
    lemma_partition_at_1();
    assert(partition_terms(78, 14) == 12132164);
}

/// The recurrence at 79.
proof fn lemma_partition_at_79()
    ensures
        partition_number(79) == 13848650,
{
    lemma_pentagonal_values();
    lemma_partition_terms_stable(79, 14, 79);
    assert(partition_terms(79, 0) == 0);
    lemma_partition_at_78();
    assert(partition_terms(79, 1) == 12132164);
    lemma_partition_at_77();
    assert(partition_terms(79, 2) == 22752027);
    lemma_partition_at_74();
    assert(partition_terms(79, 3) == 15662527);
    lemma_partition_at_72();
    assert(partition_terms(79, 4) == 10269744);
    lemma_partition_at_67();
    assert(partition_terms(79, 5) == 12949433);
    lemma_partition_at_64();
    assert(partition_terms(79, 6) == 14691063);
    lemma_partition_at_57();
    assert(partition_terms(79, 7) == 14076909);
    lemma_partition_at_53();
    assert(partition_terms(79, 8) == 13746978);
    lemma_partition_at_44();
    assert(partition_terms(79, 9) == 13822153);
    lemma_partition_at_39();
    assert(partition_terms(79, 10) == 13853338);
    lemma_partition_at_28();
    assert(partition_terms(79, 11) == 13849620);
    lemma_partition_at_22();
    assert(partition_terms(79, 12) == 13848618);
    lemma_partition_at_9();
    assert(partition_terms(79, 13) == 13848648);
    lemma_partition_at_2();
    assert(partition_terms(79, 14) == 13848650);
}

/// The recurrence at 80.
proof fn lemma_partition_at_80()
    ensures
        partition_number(80) == 15796476,
{
    lemma_pentagonal_values();
    lemma_partition_terms_stable(80, 14, 80);
    assert(partition_terms(80, 0) == 0);
    lemma_partition_at_79();
    assert(partition_terms(80, 1) == 13848650);
    lemma_partition_at_78();
    assert(partition_terms(80, 2) == 25980814);
    lemma_partition_at_75();
    assert(partition_terms(80, 3) == 17862550);
    lemma_partition_at_73();
    assert(partition_terms(80, 4) == 11676861);
    lemma_partition_at_68();
    assert(partition_terms(80, 5) == 14764596);
    lemma_partition_at_65();
    assert(partition_terms(80, 6) == 16777154);
    lemma_partition_at_58();
    assert(partition_terms(80, 7) == 16061934);
    lemma_partition_at_54();
    assert(partition_terms(80, 8) == 15675779);
    lemma_partition_at_45();
    assert(partition_terms(80, 9) == 15764913);
    lemma_partition_at_40();
    assert(partition_terms(80, 10) == 15802251);
    lemma_partition_at_29();
    assert(partition_terms(80, 11) == 15797686);
    lemma_partition_at_23();
    assert(partition_terms(80, 12) == 15796431);
    lemma_partition_at_10();
    assert(partition_terms(80, 13) == 15796473);
    lemma_partition_at_3();
    assert(partition_terms(80, 14) == 15796476);
}

/// The recurrence at 81.
proof fn lemma_partition_at_81()
    ensures
        partition_number(81) == 18004327,
{
    lemma_pentagonal_values();
    lemma_partition_terms_stable(81, 14, 81);
    assert(partition_terms(81, 0) == 0);
    lemma_partition_at_80();
    assert(partition_terms(81, 1) == 15796476);
    lemma_partition_at_79();
    assert(partition_terms(81, 2) == 29645126);
    lemma_partition_at_76();
    assert(partition_terms(81, 3) == 20356035);
    lemma_partition_at_74();
    assert(partition_terms(81, 4) == 13266535);
    lemma_partition_at_69();
    assert(partition_terms(81, 5) == 16820880);
    lemma_partition_at_66();
    assert(partition_terms(81, 6) == 19144400);
    lemma_partition_at_59();
    assert(partition_terms(81, 7) == 18312580);
    lemma_partition_at_55();
    assert(partition_terms(81, 8) == 17861304);
    lemma_partition_at_46();
    assert(partition_terms(81, 9) == 17966862);
    lemma_partition_at_41();
    assert(partition_terms(81, 10) == 18011445);
    lemma_partition_at_30();
    assert(partition_terms(81, 11) == 18005841);
    lemma_partition_at_24();
    assert(partition_terms(81, 12) == 18004266);
    lemma_partition_at_11();
    assert(partition_terms(81, 13) == 18004322);
    lemma_partition_at_4();
    assert(partition_terms(81, 14) == 18004327);
}

/// The recurrence at 82.
proof fn lemma_partition_at_82()
    ensures
        partition_number(82) == 20506255,
{
    lemma_pentagonal_values();
    lemma_partition_terms_stable(82, 14, 82);
    assert(partition_terms(82, 0) == 0);
    lemma_partition_at_81();
    assert(partition_terms(82, 1) == 18004327);
    lemma_partition_at_80();
    assert(partition_terms(82, 2) == 33800803);
    lemma_partition_at_77();
    assert(partition_terms(82, 3) == 23180940);
    lemma_partition_at_75();
    assert(partition_terms(82, 4) == 15062676);
    lemma_partition_at_70();
    assert(partition_terms(82, 5) == 19150644);
    lemma_partition_at_67();
    assert(partition_terms(82, 6) == 21830333);
    lemma_partition_at_60();
    assert(partition_terms(82, 7) == 20863866);
    lemma_partition_at_56();
    assert(partition_terms(82, 8) == 20337043);
    lemma_partition_at_47();
    assert(partition_terms(82, 9) == 20461797);
    lemma_partition_at_42();
    assert(partition_terms(82, 10) == 20514971);
    lemma_partition_at_31();
    assert(partition_terms(82, 11) == 20508129);
    lemma_partition_at_25();
    assert(partition_terms(82, 12) == 20506171);
    lemma_partition_at_12();
    assert(partition_terms(82, 13) == 20506248);
    lemma_partition_at_5();
    assert(partition_terms(82, 14) == 20506255);
}

/// The recurrence at 83.
proof fn lemma_partition_at_83()
    ensures
        partition_number(83) == 23338469,
{
    lemma_pentagonal_values();
    lemma_partition_terms_stable(83, 14, 83);
    assert(partition_terms(83, 0) == 0);
    lemma_partition_at_82();
    assert(partition_terms(83, 1) == 20506255);
    lemma_partition_at_81();
    assert(partition_terms(83, 2) == 38510582);
    lemma_partition_at_78();
    assert(partition_terms(83, 3) == 26378418);
    lemma_partition_at_76();
    assert(partition_terms(83, 4) == 17089327);
    lemma_partition_at_71();
    assert(partition_terms(83, 5) == 21786532);
    lemma_partition_at_68();
    assert(partition_terms(83, 6) == 24874267);
    lemma_partition_at_61();
    assert(partition_terms(83, 7) == 23752762);
    lemma_partition_at_57();
    assert(partition_terms(83, 8) == 23138608);
    lemma_partition_at_48();
    assert(partition_terms(83, 9) == 23285881);
    lemma_partition_at_43();
    assert(partition_terms(83, 10) == 23349142);
    lemma_partition_at_32();
    assert(partition_terms(83, 11) == 23340793);
    lemma_partition_at_26();
    assert(partition_terms(83, 12) == 23338357);
    lemma_partition_at_13();
    assert(partition_terms(83, 13) == 23338458);
    lemma_partition_at_6();
    assert(partition_terms(83, 14) == 23338469);
}

/// The recurrence at 84.
proof fn lemma_partition_at_84()
    ensures
        partition_number(84) == 26543660,
{
    lemma_pentagonal_values();
    lemma_partition_terms_stable(84, 14, 84);
    assert(partition_terms(84, 0) == 0);
    lemma_partition_at_83();
    assert(partition_terms(84, 1) == 23338469);
    lemma_partition_at_82();
    assert(partition_terms(84, 2) == 43844724);
    lemma_partition_at_79();
    assert(partition_terms(84, 3) == 29996074);
    lemma_partition_at_77();
    assert(partition_terms(84, 4) == 19376211);
    lemma_partition_at_72();
    assert(partition_terms(84, 5) == 24768994);
    lemma_partition_at_69();
    assert(partition_terms(84, 6) == 28323339);
    lemma_partition_at_62();
    assert(partition_terms(84, 7) == 27023183);
    lemma_partition_at_58();
    assert(partition_terms(84, 8) == 26307963);
    lemma_partition_at_49();
    assert(partition_terms(84, 9) == 26481488);
    lemma_partition_at_44();
    assert(partition_terms(84, 10) == 26556663);
    lemma_partition_at_33();
    assert(partition_terms(84, 11) == 26546520);
    lemma_partition_at_27();
    assert(partition_terms(84, 12) == 26543510);
    lemma_partition_at_14();
    assert(partition_terms(84, 13) == 26543645);
    lemma_partition_at_7();
    assert(partition_terms(84, 14) == 26543660);
}

/// The recurrence at 85.
proof fn lemma_partition_at_85()
    ensures
        partition_number(85) == 30167357,
{
    lemma_pentagonal_values();
    lemma_partition_terms_stable(85, 14, 85);
    assert(partition_terms(85, 0) == 0);
    lemma_partition_at_84();
    assert(partition_terms(85, 1) == 26543660);
    lemma_partition_at_83();
    assert(partition_terms(85, 2) == 49882129);
    lemma_partition_at_80();
    assert(partition_terms(85, 3) == 34085653);
    lemma_partition_at_78();
    assert(partition_terms(85, 4) == 21953489);
    lemma_partition_at_73();
    assert(partition_terms(85, 5) == 28139178);
    lemma_partition_at_70();
    assert(partition_terms(85, 6) == 32227146);
    lemma_partition_at_63();
    assert(partition_terms(85, 7) == 30721647);
    lemma_partition_at_59();
    assert(partition_terms(85, 8) == 29889827);
    lemma_partition_at_50();
    assert(partition_terms(85, 9) == 30094053);
    lemma_partition_at_45();
    assert(partition_terms(85, 10) == 30183187);
    lemma_partition_at_34();
    assert(partition_terms(85, 11) == 30170877);
    lemma_partition_at_28();
    assert(partition_terms(85, 12) == 30167159);
    lemma_partition_at_15();
    assert(partition_terms(85, 13) == 30167335);
    lemma_partition_at_8();
    assert(partition_terms(85, 14) == 30167357);
}

/// The recurrence at 86.
proof fn lemma_partition_at_86()
    ensures
        partition_number(86) == 34262962,
{
    lemma_pentagonal_values();
    lemma_partition_terms_stable(86, 14, 86);
    assert(partition_terms(86, 0) == 0);
    lemma_partition_at_85();
    assert(partition_terms(86, 1) == 30167357);
    lemma_partition_at_84();
    assert(partition_terms(86, 2) == 56711017);
    lemma_partition_at_81();
    assert(partition_terms(86, 3) == 38706690);
    lemma_partition_at_79();
    assert(partition_terms(86, 4) == 24858040);
    lemma_partition_at_74();
    assert(partition_terms(86, 5) == 31947540);
    lemma_partition_at_71();
    assert(partition_terms(86, 6) == 36644745);
    lemma_partition_at_64();
    assert(partition_terms(86, 7) == 34903115);
    lemma_partition_at_60();
    assert(partition_terms(86, 8) == 33936648);
    lemma_partition_at_51();
    assert(partition_terms(86, 9) == 34176591);
    lemma_partition_at_46();
    assert(partition_terms(86, 10) == 34282149);
    lemma_partition_at_35();
    assert(partition_terms(86, 11) == 34267266);
    lemma_partition_at_29();
    assert(partition_terms(86, 12) == 34262701);
    lemma_partition_at_16();
    assert(partition_terms(86, 13) == 34262932);
    lemma_partition_at_9();
    assert(partition_terms(86, 14) == 34262962);
}

/// The recurrence at 87.
proof fn lemma_partition_at_87()
    ensures
        partition_number(87) == 38887673,
{
    lemma_pentagonal_values();
    lemma_partition_terms_stable(87, 14, 87);
    assert(partition_terms(87, 0) == 0);
    lemma_partition_at_86();
    assert(partition_terms(87, 1) == 34262962);
    lemma_partition_at_85();
    assert(partition_terms(87, 2) == 64430319);
    lemma_partition_at_82();
    assert(partition_terms(87, 3) == 43924064);
    lemma_partition_at_80();
    assert(partition_terms(87, 4) == 28127588);
    lemma_partition_at_75();
    assert(partition_terms(87, 5) == 36245852);
    lemma_partition_at_72();
    assert(partition_terms(87, 6) == 41638635);
    lemma_partition_at_65();
    assert(partition_terms(87, 7) == 39626077);
    lemma_partition_at_61();
    assert(partition_terms(87, 8) == 38504572);
    lemma_partition_at_52();
    assert(partition_terms(87, 9) == 38786161);
    lemma_partition_at_47();
    assert(partition_terms(87, 10) == 38910915);
    lemma_partition_at_36();
    assert(partition_terms(87, 11) == 38892938);
    lemma_partition_at_30();
    assert(partition_terms(87, 12) == 38887334);
    lemma_partition_at_17();
    assert(partition_terms(87, 13) == 38887631);
    lemma_partition_at_10();
    assert(partition_terms(87, 14) == 38887673);
}

/// The recurrence at 88.
proof fn lemma_partition_at_88()
    ensures
        partition_number(88) == 44108109,
{
    lemma_pentagonal_values();
    lemma_partition_terms_stable(88, 14, 88);
    assert(partition_terms(88, 0) == 0);
    lemma_partition_at_87();
    assert(partition_terms(88, 1) == 38887673);
    lemma_partition_at_86();
    assert(partition_terms(88, 2) == 73150635);
    lemma_partition_at_83();
    assert(partition_terms(88, 3) == 49812166);
    lemma_partition_at_81();
    assert(partition_terms(88, 4) == 31807839);
    lemma_partition_at_76();
    assert(partition_terms(88, 5) == 41096930);
    lemma_partition_at_73();
    assert(partition_terms(88, 6) == 47282619);
    lemma_partition_at_66();
    assert(partition_terms(88, 7) == 44959099);
    lemma_partition_at_62();
    assert(partition_terms(88, 8) == 43658943);
    lemma_partition_at_53();
    assert(partition_terms(88, 9) == 43988874);
    lemma_partition_at_48();
    assert(partition_terms(88, 10) == 44136147);
    lemma_partition_at_37();
    assert(partition_terms(88, 11) == 44114510);
    lemma_partition_at_31();
    assert(partition_terms(88, 12) == 44107668);
    lemma_partition_at_18();
    assert(partition_terms(88, 13) == 44108053);
    lemma_partition_at_11();
    assert(partition_terms(88, 14) == 44108109);
}

/// The recurrence at 89.
proof fn lemma_partition_at_89()
    ensures
        partition_number(89) == 49995925,
{
    lemma_pentagonal_values();
    lemma_partition_terms_stable(89, 14, 89);
    assert(partition_terms(89, 0) == 0);
    lemma_partition_at_88();
    assert(partition_terms(89, 1) == 44108109);
    lemma_partition_at_87();
    assert(partition_terms(89, 2) == 82995782);
    lemma_partition_at_84();
    assert(partition_terms(89, 3) == 56452122);
    lemma_partition_at_82();
    assert(partition_terms(89, 4) == 35945867);
    lemma_partition_at_77();
    assert(partition_terms(89, 5) == 46565730);
    lemma_partition_at_74();
    assert(partition_terms(89, 6) == 53655230);
    lemma_partition_at_67();
    assert(partition_terms(89, 7) == 50975541);
    lemma_partition_at_63();
    assert(partition_terms(89, 8) == 49470042);
    lemma_partition_at_54();
    assert(partition_terms(89, 9) == 49856197);
    lemma_partition_at_49();
    assert(partition_terms(89, 10) == 50029722);
    lemma_partition_at_38();
    assert(partition_terms(89, 11) == 50003707);
    lemma_partition_at_32();
    assert(partition_terms(89, 12) == 49995358);
    lemma_partition_at_19();
    assert(partition_terms(89, 13) == 49995848);
    lemma_partition_at_12();
    assert(partition_terms(89, 14) == 49995925);
}

/// The recurrence at 90.
proof fn lemma_partition_at_90()
    ensures
        partition_number(90) == 56634173,
{
    lemma_pentagonal_values();
    lemma_partition_terms_stable(90, 14, 90);
    assert(partition_terms(90, 0) == 0);
    lemma_partition_at_89();
    assert(partition_terms(90, 1) == 49995925);
    lemma_partition_at_88();
    assert(partition_terms(90, 2) == 94104034);
    lemma_partition_at_85();
    assert(partition_terms(90, 3) == 63936677);
    lemma_partition_at_83();
    assert(partition_terms(90, 4) == 40598208);
    lemma_partition_at_78();
    assert(partition_terms(90, 5) == 52730372);
    lemma_partition_at_75();
    assert(partition_terms(90, 6) == 60848636);
    lemma_partition_at_68();
    assert(partition_terms(90, 7) == 57760901);
    lemma_partition_at_64();
    assert(partition_terms(90, 8) == 56019271);
    lemma_partition_at_55();
    assert(partition_terms(90, 9) == 56470547);
    lemma_partition_at_50();
    assert(partition_terms(90, 10) == 56674773);
    lemma_partition_at_39();
    assert(partition_terms(90, 11) == 56643588);
    lemma_partition_at_33();
    assert(partition_terms(90, 12) == 56633445);
    lemma_partition_at_20();
    assert(partition_terms(90, 13) == 56634072);
    lemma_partition_at_13();
    assert(partition_terms(90, 14) == 56634173);
}

/// The recurrence at 91.
proof fn lemma_partition_at_91()
    ensures
        partition_number(91) == 64112359,
{
    lemma_pentagonal_values();
    lemma_partition_terms_stable(91, 14, 91);
    assert(partition_terms(91, 0) == 0);
    lemma_partition_at_90();
    assert(partition_terms(91, 1) == 56634173);
    lemma_partition_at_89();
    assert(partition_terms(91, 2) == 106630098);
    lemma_partition_at_86();
    assert(partition_terms(91, 3) == 72367136);
    lemma_partition_at_84();
    assert(partition_terms(91, 4) == 45823476);
    lemma_partition_at_79();
    assert(partition_terms(91, 5) == 59672126);
    lemma_partition_at_76();
    assert(partition_terms(91, 6) == 68961217);
    lemma_partition_at_69();
    assert(partition_terms(91, 7) == 65406872);
    lemma_partition_at_65();
    assert(partition_terms(91, 8) == 63394314);
    lemma_partition_at_56();
    assert(partition_terms(91, 9) == 63921137);
    lemma_partition_at_51();
    assert(partition_terms(91, 10) == 64161080);
    lemma_partition_at_40();
    assert(partition_terms(91, 11) == 64123742);
    lemma_partition_at_34();
    assert(partition_terms(91, 12) == 64111432);
    lemma_partition_at_21();
    assert(partition_terms(91, 13) == 64112224);
    lemma_partition_at_14();
    assert(partition_terms(91, 14) == 64112359);
}

/// The recurrence at 92.
proof fn lemma_partition_at_92()
    ensures
        partition_number(92) == 72533807,
{
    lemma_pentagonal_values();
    lemma_partition_terms_stable(92, 15, 92);
    assert(partition_terms(92, 0) == 0);
    lemma_partition_at_91();
    assert(partition_terms(92, 1) == 64112359);
    lemma_partition_at_90();
    assert(partition_terms(92, 2) == 120746532);
    lemma_partition_at_87();
    assert(partition_terms(92, 3) == 81858859);
    lemma_partition_at_85();
    assert(partition_terms(92, 4) == 51691502);
    lemma_partition_at_80();
    assert(partition_terms(92, 5) == 67487978);
    lemma_partition_at_77();
    assert(partition_terms(92, 6) == 78107841);
    lemma_partition_at_70();
    assert(partition_terms(92, 7) == 74019873);
    lemma_partition_at_66();
    assert(partition_terms(92, 8) == 71696353);
    lemma_partition_at_57();
    assert(partition_terms(92, 9) == 72310507);
    lemma_partition_at_52();
    assert(partition_terms(92, 10) == 72592096);
    lemma_partition_at_41();
    assert(partition_terms(92, 11) == 72547513);
    lemma_partition_at_35();
    assert(partition_terms(92, 12) == 72532630);
    lemma_partition_at_22();
    assert(partition_terms(92, 13) == 72533632);
    lemma_partition_at_15();
    assert(partition_terms(92, 14) == 72533808);
    lemma_partition_at_0();
    assert(partition_terms(92, 15) == 72533807);
}

/// The recurrence at 93.
proof fn lemma_partition_at_93()
    ensures
        partition_number(93) == 82010177,
{
    lemma_pentagonal_values();
    lemma_partition_terms_stable(93, 15, 93);
    assert(partition_terms(93, 0) == 0);
    lemma_partition_at_92();
    assert(partition_terms(93, 1) == 72533807);
    lemma_partition_at_91();
    assert(partition_terms(93, 2) == 136646166);
    lemma_partition_at_88();
    assert(partition_terms(93, 3) == 92538057);
    lemma_partition_at_86();
    assert(partition_terms(93, 4) == 58275095);
    lemma_partition_at_81();
    assert(partition_terms(93, 5) == 76279422);
    lemma_partition_at_78();
    assert(partition_terms(93, 6) == 88411586);
    lemma_partition_at_71();
    assert(partition_terms(93, 7) == 83714381);
    lemma_partition_at_67();
    assert(partition_terms(93, 8) == 81034692);
    lemma_partition_at_58();
    assert(partition_terms(93, 9) == 81749912);
    lemma_partition_at_53();
    assert(partition_terms(93, 10) == 82079843);
    lemma_partition_at_42();
    assert(partition_terms(93, 11) == 82026669);
    lemma_partition_at_36();
    assert(partition_terms(93, 12) == 82008692);
    lemma_partition_at_23();
    assert(partition_terms(93, 13) == 82009947);
    lemma_partition_at_16();
    assert(partition_terms(93, 14) == 82010178);
    lemma_partition_at_1();
    assert(partition_terms(93, 15) == 82010177);
}

/// The recurrence at 94.
proof fn lemma_partition_at_94()
    ensures
        partition_number(94) == 92669720,
{
    lemma_pentagonal_values();
    lemma_partition_terms_stable(94, 15, 94);
    assert(partition_terms(94, 0) == 0);
    lemma_partition_at_93();
    assert(partition_terms(94, 1) == 82010177);
    lemma_partition_at_92();
    assert(partition_terms(94, 2) == 154543984);
    lemma_partition_at_89();
    assert(partition_terms(94, 3) == 104548059);
    lemma_partition_at_87();
    assert(partition_terms(94, 4) == 65660386);
    lemma_partition_at_82();
    assert(partition_terms(94, 5) == 86166641);
    lemma_partition_at_79();
    assert(partition_terms(94, 6) == 100015291);
    lemma_partition_at_72();
    assert(partition_terms(94, 7) == 94622508);
    lemma_partition_at_68();
    assert(partition_terms(94, 8) == 91534773);
    lemma_partition_at_59();
    assert(partition_terms(94, 9) == 92366593);
    lemma_partition_at_54();
    assert(partition_terms(94, 10) == 92752748);
    lemma_partition_at_43();
    assert(partition_terms(94, 11) == 92689487);
    lemma_partition_at_37();
    assert(partition_terms(94, 12) == 92667850);
    lemma_partition_at_24();
    assert(partition_terms(94, 13) == 92669425);
    lemma_partition_at_17();
    assert(partition_terms(94, 14) == 92669722);
    lemma_partition_at_2();
    assert(partition_terms(94, 15) == 92669720);
}

/// The recurrence at 95.
proof fn lemma_partition_at_95()
    ensures
        partition_number(95) == 104651419,
{
    lemma_pentagonal_values();
    lemma_partition_terms_stable(95, 15, 95);
    assert(partition_terms(95, 0) == 0);
    lemma_partition_at_94();
    assert(partition_terms(95, 1) == 92669720);
    lemma_partition_at_93();
    assert(partition_terms(95, 2) == 174679897);
    lemma_partition_at_90();
    assert(partition_terms(95, 3) == 118045724);
    lemma_partition_at_88();
    assert(partition_terms(95, 4) == 73937615);
    lemma_partition_at_83();
    assert(partition_terms(95, 5) == 97276084);
    lemma_partition_at_80();
    assert(partition_terms(95, 6) == 113072560);
    lemma_partition_at_73();
    assert(partition_terms(95, 7) == 106886871);
    lemma_partition_at_69();
    assert(partition_terms(95, 8) == 103332526);
    lemma_partition_at_60();
    assert(partition_terms(95, 9) == 104298993);
    lemma_partition_at_55();
    assert(partition_terms(95, 10) == 104750269);
    lemma_partition_at_44();
    assert(partition_terms(95, 11) == 104675094);
    lemma_partition_at_38();
    assert(partition_terms(95, 12) == 104649079);
    lemma_partition_at_25();
    assert(partition_terms(95, 13) == 104651037);
    lemma_partition_at_18();
    assert(partition_terms(95, 14) == 104651422);
    lemma_partition_at_3();
    assert(partition_terms(95, 15) == 104651419);
}

/// The recurrence at 96.
proof fn lemma_partition_at_96()
    ensures
        partition_number(96) == 118114304,
{
    lemma_pentagonal_values();
    lemma_partition_terms_stable(96, 15, 96);
    assert(partition_terms(96, 0) == 0);
    lemma_partition_at_95();
    assert(partition_terms(96, 1) == 104651419);
    lemma_partition_at_94();
    assert(partition_terms(96, 2) == 197321139);
    lemma_partition_at_91();
    assert(partition_terms(96, 3) == 133208780);
    lemma_partition_at_89();
    assert(partition_terms(96, 4) == 83212855);
    lemma_partition_at_84();
    assert(partition_terms(96, 5) == 109756515);
    lemma_partition_at_81();
    assert(partition_terms(96, 6) == 127760842);
    lemma_partition_at_74();
    assert(partition_terms(96, 7) == 120671342);
    lemma_partition_at_70();
    assert(partition_terms(96, 8) == 116583374);
    lemma_partition_at_61();
    assert(partition_terms(96, 9) == 117704879);
    lemma_partition_at_56();
    assert(partition_terms(96, 10) == 118231702);
    lemma_partition_at_45();
    assert(partition_terms(96, 11) == 118142568);
    lemma_partition_at_39();
    assert(partition_terms(96, 12) == 118111383);
    lemma_partition_at_26();
    assert(partition_terms(96, 13) == 118113819);
    lemma_partition_at_19();
    assert(partition_terms(96, 14) == 118114309);
    lemma_partition_at_4();
    assert(partition_terms(96, 15) == 118114304);
}

/// The recurrence at 97.
proof fn lemma_partition_at_97()
    ensures
        partition_number(97) == 133230930,
{
    lemma_pentagonal_values();
    lemma_partition_terms_stable(97, 15, 97);
    assert(partition_terms(97, 0) == 0);
    lemma_partition_at_96();
    assert(partition_terms(97, 1) == 118114304);
    lemma_partition_at_95();
    assert(partition_terms(97, 2) == 222765723);
    lemma_partition_at_92();
    assert(partition_terms(97, 3) == 150231916);
    lemma_partition_at_90();
    assert(partition_terms(97, 4) == 93597743);
    lemma_partition_at_85();
    assert(partition_terms(97, 5) == 123765100);
    lemma_partition_at_82();
    assert(partition_terms(97, 6) == 144271355);
    lemma_partition_at_75();
    assert(partition_terms(97, 7) == 136153091);
    lemma_partition_at_71();
    assert(partition_terms(97, 8) == 131455886);
    lemma_partition_at_62();
    assert(partition_terms(97, 9) == 132756042);
    lemma_partition_at_57();
    assert(partition_terms(97, 10) == 133370196);
    lemma_partition_at_46();
    assert(partition_terms(97, 11) == 133264638);
    lemma_partition_at_40();
    assert(partition_terms(97, 12) == 133227300);
    lemma_partition_at_27();
    assert(partition_terms(97, 13) == 133230310);
    lemma_partition_at_20();
    assert(partition_terms(97, 14) == 133230937);
    lemma_partition_at_5();
    assert(partition_terms(97, 15) == 133230930);
}

/// The recurrence at 98.
proof fn lemma_partition_at_98()
    ensures
        partition_number(98) == 150198136,
{
    lemma_pentagonal_values();
    lemma_partition_terms_stable(98, 15, 98);
    assert(partition_terms(98, 0) == 0);
    lemma_partition_at_97();
    assert(partition_terms(98, 1) == 133230930);
    lemma_partition_at_96();
    assert(partition_terms(98, 2) == 251345234);
    lemma_partition_at_93();
    assert(partition_terms(98, 3) == 169335057);
    lemma_partition_at_91();
    assert(partition_terms(98, 4) == 105222698);
    lemma_partition_at_86();
    assert(partition_terms(98, 5) == 139485660);
    lemma_partition_at_83();
    assert(partition_terms(98, 6) == 162824129);
    lemma_partition_at_76();
    assert(partition_terms(98, 7) == 153535038);
    lemma_partition_at_72();
    assert(partition_terms(98, 8) == 148142255);
    lemma_partition_at_63();
    assert(partition_terms(98, 9) == 149647754);
    lemma_partition_at_58();
    assert(partition_terms(98, 10) == 150362974);
    lemma_partition_at_47();
    assert(partition_terms(98, 11) == 150238220);
    lemma_partition_at_41();
    assert(partition_terms(98, 12) == 150193637);
    lemma_partition_at_28();
    assert(partition_terms(98, 13) == 150197355);
    lemma_partition_at_21();
    assert(partition_terms(98, 14) == 150198147);
    lemma_partition_at_6();
    assert(partition_terms(98, 15) == 150198136);
}

/// The recurrence at 99.
proof fn lemma_partition_at_99()
    ensures
        partition_number(99) == 169229875,
{
    lemma_pentagonal_values();
    lemma_partition_terms_stable(99, 15, 99);
    assert(partition_terms(99, 0) == 0);
    lemma_partition_at_98();
    assert(partition_terms(99, 1) == 150198136);
    lemma_partition_at_97();
    assert(partition_terms(99, 2) == 283429066);
    lemma_partition_at_94();
    assert(partition_terms(99, 3) == 190759346);
    lemma_partition_at_92();
    assert(partition_terms(99, 4) == 118225539);
    lemma_partition_at_87();
    assert(partition_terms(99, 5) == 157113212);
    lemma_partition_at_84();
    assert(partition_terms(99, 6) == 183656872);
    lemma_partition_at_77();
    assert(partition_terms(99, 7) == 173037009);
    lemma_partition_at_73();
    assert(partition_terms(99, 8) == 166851320);
    lemma_partition_at_64();
    assert(partition_terms(99, 9) == 168592950);
    lemma_partition_at_59();
    assert(partition_terms(99, 10) == 169424770);
    lemma_partition_at_48();
    assert(partition_terms(99, 11) == 169277497);
    lemma_partition_at_42();
    assert(partition_terms(99, 12) == 169224323);
    lemma_partition_at_29();
    assert(partition_terms(99, 13) == 169228888);
    lemma_partition_at_22();
    assert(partition_terms(99, 14) == 169229890);
    lemma_partition_at_7();
    assert(partition_terms(99, 15) == 169229875);
}

/// The recurrence at 100.
proof fn lemma_partition_at_100()
    ensures
        partition_number(100) == 190569292,
{
    lemma_pentagonal_values();
    lemma_partition_terms_stable(100, 16, 100);
    assert(partition_terms(100, 0) == 0);
    lemma_partition_at_99();
    assert(partition_terms(100, 1) == 169229875);
    lemma_partition_at_98();
    assert(partition_terms(100, 2) == 319428011);
    lemma_partition_at_95();
    assert(partition_terms(100, 3) == 214776592);
    lemma_partition_at_93();
    assert(partition_terms(100, 4) == 132766415);
    lemma_partition_at_88();
    assert(partition_terms(100, 5) == 176874524);
    lemma_partition_at_85();
    assert(partition_terms(100, 6) == 207041881);
    lemma_partition_at_78();
    assert(partition_terms(100, 7) == 194909717);
    lemma_partition_at_74();
    assert(partition_terms(100, 8) == 187820217);
    lemma_partition_at_65();
    assert(partition_terms(100, 9) == 189832775);
    lemma_partition_at_60();
    assert(partition_terms(100, 10) == 190799242);
    lemma_partition_at_49();
    assert(partition_terms(100, 11) == 190625717);
    lemma_partition_at_43();
    assert(partition_terms(100, 12) == 190562456);
    lemma_partition_at_30();
    assert(partition_terms(100, 13) == 190568060);
    lemma_partition_at_23();
    assert(partition_terms(100, 14) == 190569315);
    lemma_partition_at_8();
    assert(partition_terms(100, 15) == 190569293);
    lemma_partition_at_0();
    assert(partition_terms(100, 16) == 190569292);
}

/// The recurrence at 101.
proof fn lemma_partition_at_101()
    ensures
        partition_number(101) == 214481126,
{
    lemma_pentagonal_values();
    lemma_partition_terms_stable(101, 16, 101);
    assert(partition_terms(101, 0) == 0);
    lemma_partition_at_100();
    assert(partition_terms(101, 1) == 190569292);
    lemma_partition_at_99();
    assert(partition_terms(101, 2) == 359799167);
    lemma_partition_at_96();
    assert(partition_terms(101, 3) == 241684863);
    lemma_partition_at_94();
    assert(partition_terms(101, 4) == 149015143);
    lemma_partition_at_89();
    assert(partition_terms(101, 5) == 199011068);
    lemma_partition_at_86();
    assert(partition_terms(101, 6) == 233274030);
    lemma_partition_at_79();
    assert(partition_terms(101, 7) == 219425380);
    lemma_partition_at_75();
    assert(partition_terms(101, 8) == 211307116);
    lemma_partition_at_66();
    assert(partition_terms(101, 9) == 213630636);
    lemma_partition_at_61();
    assert(partition_terms(101, 10) == 214752141);
    lemma_partition_at_50();
    assert(partition_terms(101, 11) == 214547915);
    lemma_partition_at_44();
    assert(partition_terms(101, 12) == 214472740);
    lemma_partition_at_31();
    assert(partition_terms(101, 13) == 214479582);
    lemma_partition_at_24();
    assert(partition_terms(101, 14) == 214481157);
    lemma_partition_at_9();
    assert(partition_terms(101, 15) == 214481127);
    lemma_partition_at_1();
    assert(partition_terms(101, 16) == 214481126);
}

/// The recurrence at 102.
proof fn lemma_partition_at_102()
    ensures
        partition_number(102) == 241265379,
{
    lemma_pentagonal_values();
    lemma_partition_terms_stable(102, 16, 102);
    assert(partition_terms(102, 0) == 0);
    lemma_partition_at_101();
    assert(partition_terms(102, 1) == 214481126);
    lemma_partition_at_100();
    assert(partition_terms(102, 2) == 405050418);
    lemma_partition_at_97();
    assert(partition_terms(102, 3) == 271819488);
    lemma_partition_at_95();
    assert(partition_terms(102, 4) == 167168069);
    lemma_partition_at_90();
    assert(partition_terms(102, 5) == 223802242);
    lemma_partition_at_87();
    assert(partition_terms(102, 6) == 262689915);
    lemma_partition_at_80();
    assert(partition_terms(102, 7) == 246893439);
    lemma_partition_at_76();
    assert(partition_terms(102, 8) == 237604348);
    lemma_partition_at_67();
    assert(partition_terms(102, 9) == 240284037);
    lemma_partition_at_62();
    assert(partition_terms(102, 10) == 241584193);
    lemma_partition_at_51();
    assert(partition_terms(102, 11) == 241344250);
    lemma_partition_at_45();
    assert(partition_terms(102, 12) == 241255116);
    lemma_partition_at_32();
    assert(partition_terms(102, 13) == 241263465);
    lemma_partition_at_25();
    assert(partition_terms(102, 14) == 241265423);
    lemma_partition_at_10();
    assert(partition_terms(102, 15) == 241265381);
    lemma_partition_at_2();
    assert(partition_terms(102, 16) == 241265379);
}

/// The recurrence at 103.
proof fn lemma_partition_at_103()
    ensures
        partition_number(103) == 271248950,
{
    lemma_pentagonal_values();
    lemma_partition_terms_stable(103, 16, 103);
    assert(partition_terms(103, 0) == 0);
    lemma_partition_at_102();
    assert(partition_terms(103, 1) == 241265379);
    lemma_partition_at_101();
    assert(partition_terms(103, 2) == 455746505);
    lemma_partition_at_98();
    assert(partition_terms(103, 3) == 305548369);
    lemma_partition_at_96();
    assert(partition_terms(103, 4) == 187434065);
    lemma_partition_at_91();
    assert(partition_terms(103, 5) == 251546424);
    lemma_partition_at_88();
    assert(partition_terms(103, 6) == 295654533);
    lemma_partition_at_81();
    assert(partition_terms(103, 7) == 277650206);
    lemma_partition_at_77();
    assert(partition_terms(103, 8) == 267030343);
    lemma_partition_at_68();
    assert(partition_terms(103, 9) == 270118078);
    lemma_partition_at_63();
    assert(partition_terms(103, 10) == 271623577);
    lemma_partition_at_52();
    assert(partition_terms(103, 11) == 271341988);
    lemma_partition_at_46();
    assert(partition_terms(103, 12) == 271236430);
    lemma_partition_at_33();
    assert(partition_terms(103, 13) == 271246573);
    lemma_partition_at_26();
    assert(partition_terms(103, 14) == 271249009);
    lemma_partition_at_11();
    assert(partition_terms(103, 15) == 271248953);
    lemma_partition_at_3();
    assert(partition_terms(103, 16) == 271248950);
}

/// The recurrence at 104.
proof fn lemma_partition_at_104()
    ensures
        partition_number(104) == 304801365,
{
    lemma_pentagonal_values();
    lemma_partition_terms_stable(104, 16, 104);
    assert(partition_terms(104, 0) == 0);
    lemma_partition_at_103();
    assert(partition_terms(104, 1) == 271248950);
    lemma_partition_at_102();
    assert(partition_terms(104, 2) == 512514329);
    lemma_partition_at_99();
    assert(partition_terms(104, 3) == 343284454);
    lemma_partition_at_97();
    assert(partition_terms(104, 4) == 210053524);
    lemma_partition_at_92();
    assert(partition_terms(104, 5) == 282587331);
    lemma_partition_at_89();
    assert(partition_terms(104, 6) == 332583256);
    lemma_partition_at_82();
    assert(partition_terms(104, 7) == 312077001);
    lemma_partition_at_78();
    assert(partition_terms(104, 8) == 299944837);
    lemma_partition_at_69();
    assert(partition_terms(104, 9) == 303499182);
    lemma_partition_at_64();
    assert(partition_terms(104, 10) == 305240812);
    lemma_partition_at_53();
    assert(partition_terms(104, 11) == 304910881);
    lemma_partition_at_47();
    assert(partition_terms(104, 12) == 304786127);
    lemma_partition_at_34();
    assert(partition_terms(104, 13) == 304798437);
    lemma_partition_at_27();
    assert(partition_terms(104, 14) == 304801447);
    lemma_partition_at_12();
    assert(partition_terms(104, 15) == 304801370);
    lemma_partition_at_4();
    assert(partition_terms(104, 16) == 304801365);
}

/// The recurrence at 105.
proof fn lemma_partition_at_105()
    ensures
        partition_number(105) == 342325709,
{
    lemma_pentagonal_values();
    lemma_partition_terms_stable(105, 16, 105);
    assert(partition_terms(105, 0) == 0);
    lemma_partition_at_104();
    assert(partition_terms(105, 1) == 304801365);
    lemma_partition_at_103();
    assert(partition_terms(105, 2) == 576050315);
    lemma_partition_at_100();
    assert(partition_terms(105, 3) == 385481023);
    lemma_partition_at_98();
    assert(partition_terms(105, 4) == 235282887);
    lemma_partition_at_93();
    assert(partition_terms(105, 5) == 317293064);
    lemma_partition_at_90();
    assert(partition_terms(105, 6) == 373927237);
    lemma_partition_at_83();
    assert(partition_terms(105, 7) == 350588768);
    lemma_partition_at_79();
    assert(partition_terms(105, 8) == 336740118);
    lemma_partition_at_70();
    assert(partition_terms(105, 9) == 340828086);
    lemma_partition_at_65();
    assert(partition_terms(105, 10) == 342840644);
    lemma_partition_at_54();
    assert(partition_terms(105, 11) == 342454489);
    lemma_partition_at_48();
    assert(partition_terms(105, 12) == 342307216);
    lemma_partition_at_35();
    assert(partition_terms(105, 13) == 342322099);
    lemma_partition_at_28();
    assert(partition_terms(105, 14) == 342325817);
    lemma_partition_at_13();
    assert(partition_terms(105, 15) == 342325716);
    lemma_partition_at_5();
    assert(partition_terms(105, 16) == 342325709);
}

/// The recurrence at 106.
proof fn lemma_partition_at_106()
    ensures
        partition_number(106) == 384276336,
{
    lemma_pentagonal_values();
    lemma_partition_terms_stable(106, 16, 106);
    assert(partition_terms(106, 0) == 0);
    lemma_partition_at_105();
    assert(partition_terms(106, 1) == 342325709);
    lemma_partition_at_104();
    assert(partition_terms(106, 2) == 647127074);
    lemma_partition_at_101();
    assert(partition_terms(106, 3) == 432645948);
    lemma_partition_at_99();
    assert(partition_terms(106, 4) == 263416073);
    lemma_partition_at_94();
    assert(partition_terms(106, 5) == 356085793);
    lemma_partition_at_91();
    assert(partition_terms(106, 6) == 420198152);
    lemma_partition_at_84();
    assert(partition_terms(106, 7) == 393654492);
    lemma_partition_at_80();
    assert(partition_terms(106, 8) == 377858016);
    lemma_partition_at_71();
    assert(partition_terms(106, 9) == 382555221);
    lemma_partition_at_66();
    assert(partition_terms(106, 10) == 384878741);
    lemma_partition_at_55();
    assert(partition_terms(106, 11) == 384427465);
    lemma_partition_at_49();
    assert(partition_terms(106, 12) == 384253940);
    lemma_partition_at_36();
    assert(partition_terms(106, 13) == 384271917);
    lemma_partition_at_29();
    assert(partition_terms(106, 14) == 384276482);
    lemma_partition_at_14();
    assert(partition_terms(106, 15) == 384276347);
    lemma_partition_at_6();
    assert(partition_terms(106, 16) == 384276336);
}

/// The recurrence at 107.
proof fn lemma_partition_at_107()
    ensures
        partition_number(107) == 431149389,
{
    lemma_pentagonal_values();
    lemma_partition_terms_stable(107, 16, 107);
    assert(partition_terms(107, 0) == 0);
    lemma_partition_at_106();
    assert(partition_terms(107, 1) == 384276336);
    lemma_partition_at_105();
    assert(partition_terms(107, 2) == 726602045);
    lemma_partition_at_102();
    assert(partition_terms(107, 3) == 485336666);
    lemma_partition_at_100();
    assert(partition_terms(107, 4) == 294767374);
    lemma_partition_at_95();
    assert(partition_terms(107, 5) == 399418793);
    lemma_partition_at_92();
    assert(partition_terms(107, 6) == 471952600);
    lemma_partition_at_85();
    assert(partition_terms(107, 7) == 441785243);
    lemma_partition_at_81();
    assert(partition_terms(107, 8) == 423780916);
    lemma_partition_at_72();
    assert(partition_terms(107, 9) == 429173699);
    lemma_partition_at_67();
    assert(partition_terms(107, 10) == 431853388);
    lemma_partition_at_56();
    assert(partition_terms(107, 11) == 431326565);
    lemma_partition_at_50();
    assert(partition_terms(107, 12) == 431122339);
    lemma_partition_at_37();
    assert(partition_terms(107, 13) == 431143976);
    lemma_partition_at_30();
    assert(partition_terms(107, 14) == 431149580);
    lemma_partition_at_15();
    assert(partition_terms(107, 15) == 431149404);
    lemma_partition_at_7();
    assert(partition_terms(107, 16) == 431149389);
}

/// The recurrence at 108.
proof fn lemma_partition_at_108()
    ensures
        partition_number(108) == 483502844,
{
    lemma_pentagonal_values();
    lemma_partition_terms_stable(108, 16, 108);
    assert(partition_terms(108, 0) == 0);
    lemma_partition_at_107();
    assert(partition_terms(108, 1) == 431149389);
    lemma_partition_at_106();
    assert(partition_terms(108, 2) == 815425725);
    lemma_partition_at_103();
    assert(partition_terms(108, 3) == 544176775);
    lemma_partition_at_101();
    assert(partition_terms(108, 4) == 329695649);
    lemma_partition_at_96();
    assert(partition_terms(108, 5) == 447809953);
    lemma_partition_at_93();
    assert(partition_terms(108, 6) == 529820130);
    lemma_partition_at_86();
    assert(partition_terms(108, 7) == 495557168);
    lemma_partition_at_82();
    assert(partition_terms(108, 8) == 475050913);
    lemma_partition_at_73();
    assert(partition_terms(108, 9) == 481236602);
    lemma_partition_at_68();
    assert(partition_terms(108, 10) == 484324337);
    lemma_partition_at_57();
    assert(partition_terms(108, 11) == 483710183);
    lemma_partition_at_51();
    assert(partition_terms(108, 12) == 483470240);
    lemma_partition_at_38();
    assert(partition_terms(108, 13) == 483496255);
    lemma_partition_at_31();
    assert(partition_terms(108, 14) == 483503097);
    lemma_partition_at_16();
    assert(partition_terms(108, 15) == 483502866);
    lemma_partition_at_8();
    assert(partition_terms(108, 16) == 483502844);
}

/// The recurrence at 109.
proof fn lemma_partition_at_109()
    ensures
        partition_number(109) == 541946240,
{
    lemma_pentagonal_values();
    lemma_partition_terms_stable(109, 16, 109);
    assert(partition_terms(109, 0) == 0);
    lemma_partition_at_108();
    assert(partition_terms(109, 1) == 483502844);
    lemma_partition_at_107();
    assert(partition_terms(109, 2) == 914652233);
    lemma_partition_at_104();
    assert(partition_terms(109, 3) == 609850868);
    lemma_partition_at_102();
    assert(partition_terms(109, 4) == 368585489);
    lemma_partition_at_97();
    assert(partition_terms(109, 5) == 501816419);
    lemma_partition_at_94();
    assert(partition_terms(109, 6) == 594486139);
    lemma_partition_at_87();
    assert(partition_terms(109, 7) == 555598466);
    lemma_partition_at_83();
    assert(partition_terms(109, 8) == 532259997);
    lemma_partition_at_74();
    assert(partition_terms(109, 9) == 539349497);
    lemma_partition_at_69();
    assert(partition_terms(109, 10) == 542903842);
    lemma_partition_at_58();
    assert(partition_terms(109, 11) == 542188622);
    lemma_partition_at_52();
    assert(partition_terms(109, 12) == 541907033);
    lemma_partition_at_39();
    assert(partition_terms(109, 13) == 541938218);
    lemma_partition_at_32();
    assert(partition_terms(109, 14) == 541946567);
    lemma_partition_at_17();
    assert(partition_terms(109, 15) == 541946270);
    lemma_partition_at_9();
    assert(partition_terms(109, 16) == 541946240);
}

/// The recurrence at 110.
proof fn lemma_partition_at_110()
    ensures
        partition_number(110) == 607163746,
{
    lemma_pentagonal_values();
    lemma_partition_terms_stable(110, 16, 110);
    assert(partition_terms(110, 0) == 0);
    lemma_partition_at_109();
    assert(partition_terms(110, 1) == 541946240);
    lemma_partition_at_108();
    assert(partition_terms(110, 2) == 1025449084);
    lemma_partition_at_105();
    assert(partition_terms(110, 3) == 683123375);
    lemma_partition_at_103();
    assert(partition_terms(110, 4) == 411874425);
    lemma_partition_at_98();
    assert(partition_terms(110, 5) == 562072561);
    lemma_partition_at_95();
    assert(partition_terms(110, 6) == 666723980);
    lemma_partition_at_88();
    assert(partition_terms(110, 7) == 622615871);
    lemma_partition_at_84();
    assert(partition_terms(110, 8) == 596072211);
    lemma_partition_at_75();
    assert(partition_terms(110, 9) == 604190475);
    lemma_partition_at_70();
    assert(partition_terms(110, 10) == 608278443);
    lemma_partition_at_59();
    assert(partition_terms(110, 11) == 607446623);
    lemma_partition_at_53();
    assert(partition_terms(110, 12) == 607116692);
    lemma_partition_at_40();
    assert(partition_terms(110, 13) == 607154030);
    lemma_partition_at_33();
    assert(partition_terms(110, 14) == 607164173);
    lemma_partition_at_18();
    assert(partition_terms(110, 15) == 607163788);
    lemma_partition_at_10();
    assert(partition_terms(110, 16) == 607163746);
}

/// The recurrence at 111.
proof fn lemma_partition_at_111()
    ensures
        partition_number(111) == 679903203,
{
    lemma_pentagonal_values();
    lemma_partition_terms_stable(111, 16, 111);
    assert(partition_terms(111, 0) == 0);
    lemma_partition_at_110();
    assert(partition_terms(111, 1) == 607163746);
    lemma_partition_at_109();
    assert(partition_terms(111, 2) == 1149109986);
    lemma_partition_at_106();
    assert(partition_terms(111, 3) == 764833650);
    lemma_partition_at_104();
    assert(partition_terms(111, 4) == 460032285);
    lemma_partition_at_99();
    assert(partition_terms(111, 5) == 629262160);
    lemma_partition_at_96();
    assert(partition_terms(111, 6) == 747376464);
    lemma_partition_at_89();
    assert(partition_terms(111, 7) == 697380539);
    lemma_partition_at_85();
    assert(partition_terms(111, 8) == 667213182);
    lemma_partition_at_76();
    assert(partition_terms(111, 9) == 676502273);
    lemma_partition_at_71();
    assert(partition_terms(111, 10) == 681199478);
    lemma_partition_at_60();
    assert(partition_terms(111, 11) == 680233011);
    lemma_partition_at_54();
    assert(partition_terms(111, 12) == 679846856);
    lemma_partition_at_41();
    assert(partition_terms(111, 13) == 679891439);
    lemma_partition_at_34();
    assert(partition_terms(111, 14) == 679903749);
    lemma_partition_at_19();
    assert(partition_terms(111, 15) == 679903259);
    lemma_partition_at_11();
    assert(partition_terms(111, 16) == 679903203);
}

/// The recurrence at 112.
proof fn lemma_partition_at_112()
    ensures
        partition_number(112) == 761002156,
{
    lemma_pentagonal_values();
    lemma_partition_terms_stable(112, 16, 112);
    assert(partition_terms(112, 0) == 0);
    lemma_partition_at_111();
    assert(partition_terms(112, 1) == 679903203);
    lemma_partition_at_110();
    assert(partition_terms(112, 2) == 1287066949);
    lemma_partition_at_107();
    assert(partition_terms(112, 3) == 855917560);
    lemma_partition_at_105();
    assert(partition_terms(112, 4) == 513591851);
    lemma_partition_at_100();
    assert(partition_terms(112, 5) == 704161143);
    lemma_partition_at_97();
    assert(partition_terms(112, 6) == 837392073);
    lemma_partition_at_90();
    assert(partition_terms(112, 7) == 780757900);
    lemma_partition_at_86();
    assert(partition_terms(112, 8) == 746494938);
    lemma_partition_at_77();
    assert(partition_terms(112, 9) == 757114801);
    lemma_partition_at_72();
    assert(partition_terms(112, 10) == 762507584);
    lemma_partition_at_61();
    assert(partition_terms(112, 11) == 761386079);
    lemma_partition_at_55();
    assert(partition_terms(112, 12) == 760934803);
    lemma_partition_at_42();
    assert(partition_terms(112, 13) == 760987977);
    lemma_partition_at_35();
    assert(partition_terms(112, 14) == 761002860);
    lemma_partition_at_20();
    assert(partition_terms(112, 15) == 761002233);
    lemma_partition_at_12();
    assert(partition_terms(112, 16) == 761002156);
}

/// The recurrence at 113.
proof fn lemma_partition_at_113()
    ensures
        partition_number(113) == 851376628,
{
    lemma_pentagonal_values();
    lemma_partition_terms_stable(113, 16, 113);
    assert(partition_terms(113, 0) == 0);
    lemma_partition_at_112();
    assert(partition_terms(113, 1) == 761002156);
    lemma_partition_at_111();
    assert(partition_terms(113, 2) == 1440905359);
    lemma_partition_at_108();
    assert(partition_terms(113, 3) == 957402515);
    lemma_partition_at_106();
    assert(partition_terms(113, 4) == 573126179);
    lemma_partition_at_101();
    assert(partition_terms(113, 5) == 787607305);
    lemma_partition_at_98();
    assert(partition_terms(113, 6) == 937805441);
    lemma_partition_at_91();
    assert(partition_terms(113, 7) == 873693082);
    lemma_partition_at_87();
    assert(partition_terms(113, 8) == 834805409);
    lemma_partition_at_78();
    assert(partition_terms(113, 9) == 846937573);
    lemma_partition_at_73();
    assert(partition_terms(113, 10) == 853123262);
    lemma_partition_at_62();
    assert(partition_terms(113, 11) == 851823106);
    lemma_partition_at_56();
    assert(partition_terms(113, 12) == 851296283);
    lemma_partition_at_43();
    assert(partition_terms(113, 13) == 851359544);
    lemma_partition_at_36();
    assert(partition_terms(113, 14) == 851377521);
    lemma_partition_at_21();
    assert(partition_terms(113, 15) == 851376729);
    lemma_partition_at_13();
    assert(partition_terms(113, 16) == 851376628);
}

/// The recurrence at 114.
proof fn lemma_partition_at_114()
    ensures
        partition_number(114) == 952050665,
{
    lemma_pentagonal_values();
    lemma_partition_terms_stable(114, 16, 114);
    assert(partition_terms(114, 0) == 0);
    lemma_partition_at_113();
    assert(partition_terms(114, 1) == 851376628);
    lemma_partition_at_112();
    assert(partition_terms(114, 2) == 1612378784);
    lemma_partition_at_109();
    assert(partition_terms(114, 3) == 1070432544);
    lemma_partition_at_107();
    assert(partition_terms(114, 4) == 639283155);
    lemma_partition_at_102();
    assert(partition_terms(114, 5) == 880548534);
    lemma_partition_at_99();
    assert(partition_terms(114, 6) == 1049778409);
    lemma_partition_at_92();
    assert(partition_terms(114, 7) == 977244602);
    lemma_partition_at_88();
    assert(partition_terms(114, 8) == 933136493);
    lemma_partition_at_79();
    assert(partition_terms(114, 9) == 946985143);
    lemma_partition_at_74();
    assert(partition_terms(114, 10) == 954074643);
    lemma_partition_at_63();
    assert(partition_terms(114, 11) == 952569144);
    lemma_partition_at_57();
    assert(partition_terms(114, 12) == 951954990);
    lemma_partition_at_44();
    assert(partition_terms(114, 13) == 952030165);
    lemma_partition_at_37();
    assert(partition_terms(114, 14) == 952051802);
    lemma_partition_at_22();
    assert(partition_terms(114, 15) == 952050800);
    lemma_partition_at_14();
    assert(partition_terms(114, 16) == 952050665);
}

/// The recurrence at 115.
proof fn lemma_partition_at_115()
    ensures
        partition_number(115) == 1064144451,
{
    lemma_pentagonal_values();
    lemma_partition_terms_stable(115, 16, 115);
    assert(partition_terms(115, 0) == 0);
    lemma_partition_at_114();
    assert(partition_terms(115, 1) == 952050665);
    lemma_partition_at_113();
    assert(partition_terms(115, 2) == 1803427293);
    lemma_partition_at_110();
    assert(partition_terms(115, 3) == 1196263547);
    lemma_partition_at_108();
    assert(partition_terms(115, 4) == 712760703);
    lemma_partition_at_103();
    assert(partition_terms(115, 5) == 984009653);
    lemma_partition_at_100();
    assert(partition_terms(115, 6) == 1174578945);
    lemma_partition_at_93();
    assert(partition_terms(115, 7) == 1092568768);
    lemma_partition_at_89();
    assert(partition_terms(115, 8) == 1042572843);
    lemma_partition_at_80();
    assert(partition_terms(115, 9) == 1058369319);
    lemma_partition_at_75();
    assert(partition_terms(115, 10) == 1066487583);
    lemma_partition_at_64();
    assert(partition_terms(115, 11) == 1064745953);
    lemma_partition_at_58();
    assert(partition_terms(115, 12) == 1064030733);
    lemma_partition_at_45();
    assert(partition_terms(115, 13) == 1064119867);
    lemma_partition_at_38();
    assert(partition_terms(115, 14) == 1064145882);
    lemma_partition_at_23();
    assert(partition_terms(115, 15) == 1064144627);
    lemma_partition_at_15();
    assert(partition_terms(115, 16) == 1064144451);
}

/// The recurrence at 116.
proof fn lemma_partition_at_116()
    ensures
        partition_number(116) == 1188908248,
{
    lemma_pentagonal_values();
    lemma_partition_terms_stable(116, 16, 116);
    assert(partition_terms(116, 0) == 0);
    lemma_partition_at_115();
    assert(partition_terms(116, 1) == 1064144451);
    lemma_partition_at_114();
    assert(partition_terms(116, 2) == 2016195116);
    lemma_partition_at_111();
    assert(partition_terms(116, 3) == 1336291913);
    lemma_partition_at_109();
    assert(partition_terms(116, 4) == 794345673);
    lemma_partition_at_104();
    assert(partition_terms(116, 5) == 1099147038);
    lemma_partition_at_101();
    assert(partition_terms(116, 6) == 1313628164);
    lemma_partition_at_94();
    assert(partition_terms(116, 7) == 1220958444);
    lemma_partition_at_90();
    assert(partition_terms(116, 8) == 1164324271);
    lemma_partition_at_81();
    assert(partition_terms(116, 9) == 1182328598);
    lemma_partition_at_76();
    assert(partition_terms(116, 10) == 1191617689);
    lemma_partition_at_65();
    assert(partition_terms(116, 11) == 1189605131);
    lemma_partition_at_59();
    assert(partition_terms(116, 12) == 1188773311);
    lemma_partition_at_46();
    assert(partition_terms(116, 13) == 1188878869);
    lemma_partition_at_39();
    assert(partition_terms(116, 14) == 1188910054);
    lemma_partition_at_24();
    assert(partition_terms(116, 15) == 1188908479);
    lemma_partition_at_16();
    assert(partition_terms(116, 16) == 1188908248);
}

/// The recurrence at 117.
proof fn lemma_partition_at_117()
    ensures
        partition_number(117) == 1327710076,
{
    lemma_pentagonal_values();
    lemma_partition_terms_stable(117, 17, 117);
    assert(partition_terms(117, 0) == 0);
    lemma_partition_at_116();
    assert(partition_terms(117, 1) == 1188908248);
    lemma_partition_at_115();
    assert(partition_terms(117, 2) == 2253052699);
    lemma_partition_at_112();
    assert(partition_terms(117, 3) == 1492050543);
    lemma_partition_at_110();
    assert(partition_terms(117, 4) == 884886797);
    lemma_partition_at_105();
    assert(partition_terms(117, 5) == 1227212506);
    lemma_partition_at_102();
    assert(partition_terms(117, 6) == 1468477885);
    lemma_partition_at_95();
    assert(partition_terms(117, 7) == 1363826466);
    lemma_partition_at_91();
    assert(partition_terms(117, 8) == 1299714107);
    lemma_partition_at_82();
    assert(partition_terms(117, 9) == 1320220362);
    lemma_partition_at_77();
    assert(partition_terms(117, 10) == 1330840225);
    lemma_partition_at_66();
    assert(partition_terms(117, 11) == 1328516705);
    lemma_partition_at_60();
    assert(partition_terms(117, 12) == 1327550238);
    lemma_partition_at_47();
    assert(partition_terms(117, 13) == 1327674992);
    lemma_partition_at_40();
    assert(partition_terms(117, 14) == 1327712330);
    lemma_partition_at_25();
    assert(partition_terms(117, 15) == 1327710372);
    lemma_partition_at_17();
    assert(partition_terms(117, 16) == 1327710075);
    lemma_partition_at_0();
    assert(partition_terms(117, 17) == 1327710076);
}

/// The recurrence at 118.
proof fn lemma_partition_at_118()
    ensures
        partition_number(118) == 1482074143,
{
    lemma_pentagonal_values();
    lemma_partition_terms_stable(118, 17, 118);
    assert(partition_terms(118, 0) == 0);
    lemma_partition_at_117();
    assert(partition_terms(118, 1) == 1327710076);
    lemma_partition_at_116();
    assert(partition_terms(118, 2) == 2516618324);
    lemma_partition_at_113();
    assert(partition_terms(118, 3) == 1665241696);
    lemma_partition_at_111();
    assert(partition_terms(118, 4) == 985338493);
    lemma_partition_at_106();
    assert(partition_terms(118, 5) == 1369614829);
    lemma_partition_at_103();
    assert(partition_terms(118, 6) == 1640863779);
    lemma_partition_at_96();
    assert(partition_terms(118, 7) == 1522749475);
    lemma_partition_at_92();
    assert(partition_terms(118, 8) == 1450215668);
    lemma_partition_at_83();
    assert(partition_terms(118, 9) == 1473554137);
    lemma_partition_at_78();
    assert(partition_terms(118, 10) == 1485686301);
    lemma_partition_at_67();
    assert(partition_terms(118, 11) == 1483006612);
    lemma_partition_at_61();
    assert(partition_terms(118, 12) == 1481885107);
    lemma_partition_at_48();
    assert(partition_terms(118, 13) == 1482032380);
    lemma_partition_at_41();
    assert(partition_terms(118, 14) == 1482076963);
    lemma_partition_at_26();
    assert(partition_terms(118, 15) == 1482074527);
    lemma_partition_at_18();
    assert(partition_terms(118, 16) == 1482074142);
    lemma_partition_at_1();
    assert(partition_terms(118, 17) == 1482074143);
}

/// The recurrence at 119.
proof fn lemma_partition_at_119()
    ensures
        partition_number(119) == 1653668665,
{
    lemma_pentagonal_values();
    lemma_partition_terms_stable(119, 17, 119);
    assert(partition_terms(119, 0) == 0);
    lemma_partition_at_118();
    assert(partition_terms(119, 1) == 1482074143);
    lemma_partition_at_117();
    assert(partition_terms(119, 2) == 2809784219);
    lemma_partition_at_114();
    assert(partition_terms(119, 3) == 1857733554);
    lemma_partition_at_112();
    assert(partition_terms(119, 4) == 1096731398);
    lemma_partition_at_107();
    assert(partition_terms(119, 5) == 1527880787);
    lemma_partition_at_104();
    assert(partition_terms(119, 6) == 1832682152);
    lemma_partition_at_97();
    assert(partition_terms(119, 7) == 1699451222);
    lemma_partition_at_93();
    assert(partition_terms(119, 8) == 1617441045);
    lemma_partition_at_84();
    assert(partition_terms(119, 9) == 1643984705);
    lemma_partition_at_79();
    assert(partition_terms(119, 10) == 1657833355);
    lemma_partition_at_68();
    assert(partition_terms(119, 11) == 1654745620);
    lemma_partition_at_62();
    assert(partition_terms(119, 12) == 1653445464);
    lemma_partition_at_49();
    assert(partition_terms(119, 13) == 1653618989);
    lemma_partition_at_42();
    assert(partition_terms(119, 14) == 1653672163);
    lemma_partition_at_27();
    assert(partition_terms(119, 15) == 1653669153);
    lemma_partition_at_19();
    assert(partition_terms(119, 16) == 1653668663);
    lemma_partition_at_2();
    assert(partition_terms(119, 17) == 1653668665);
}

/// The recurrence at 120.
proof fn lemma_partition_at_120()
    ensures
        partition_number(120) == 1844349560,
{
    lemma_pentagonal_values();
    lemma_partition_terms_stable(120, 17, 120);
    assert(partition_terms(120, 0) == 0);
    lemma_partition_at_119();
    assert(partition_terms(120, 1) == 1653668665);
    lemma_partition_at_118();
    assert(partition_terms(120, 2) == 3135742808);
    lemma_partition_at_115();
    assert(partition_terms(120, 3) == 2071598357);
    lemma_partition_at_113();
    assert(partition_terms(120, 4) == 1220221729);
    lemma_partition_at_108();
    assert(partition_terms(120, 5) == 1703724573);
    lemma_partition_at_105();
    assert(partition_terms(120, 6) == 2046050282);
    lemma_partition_at_98();
    assert(partition_terms(120, 7) == 1895852146);
    lemma_partition_at_94();
    assert(partition_terms(120, 8) == 1803182426);
    lemma_partition_at_85();
    assert(partition_terms(120, 9) == 1833349783);
    lemma_partition_at_80();
    assert(partition_terms(120, 10) == 1849146259);
    lemma_partition_at_69();
    assert(partition_terms(120, 11) == 1845591914);
    lemma_partition_at_63();
    assert(partition_terms(120, 12) == 1844086415);
    lemma_partition_at_50();
    assert(partition_terms(120, 13) == 1844290641);
    lemma_partition_at_43();
    assert(partition_terms(120, 14) == 1844353902);
    lemma_partition_at_28();
    assert(partition_terms(120, 15) == 1844350184);
    lemma_partition_at_20();
    assert(partition_terms(120, 16) == 1844349557);
    lemma_partition_at_3();
    assert(partition_terms(120, 17) == 1844349560);
}

/// The recurrence at 121.
proof fn lemma_partition_at_121()
    ensures
        partition_number(121) == 2056148051,
{
    lemma_pentagonal_values();
    lemma_partition_terms_stable(121, 17, 121);
    assert(partition_terms(121, 0) == 0);
    lemma_partition_at_120();
    assert(partition_terms(121, 1) == 1844349560);
    lemma_partition_at_119();
    assert(partition_terms(121, 2) == 3498018225);
    lemma_partition_at_116();
    assert(partition_terms(121, 3) == 2309109977);
    lemma_partition_at_114();
    assert(partition_terms(121, 4) == 1357059312);
    lemma_partition_at_109();
    assert(partition_terms(121, 5) == 1899005552);
    lemma_partition_at_106();
    assert(partition_terms(121, 6) == 2283281888);
    lemma_partition_at_99();
    assert(partition_terms(121, 7) == 2114052013);
    lemma_partition_at_95();
    assert(partition_terms(121, 8) == 2009400594);
    lemma_partition_at_86();
    assert(partition_terms(121, 9) == 2043663556);
    lemma_partition_at_81();
    assert(partition_terms(121, 10) == 2061667883);
    lemma_partition_at_70();
    assert(partition_terms(121, 11) == 2057579915);
    lemma_partition_at_64();
    assert(partition_terms(121, 12) == 2055838285);
    lemma_partition_at_51();
    assert(partition_terms(121, 13) == 2056078228);
    lemma_partition_at_44();
    assert(partition_terms(121, 14) == 2056153403);
    lemma_partition_at_29();
    assert(partition_terms(121, 15) == 2056148838);
    lemma_partition_at_21();
    assert(partition_terms(121, 16) == 2056148046);
    lemma_partition_at_4();
    assert(partition_terms(121, 17) == 2056148051);
}

/// The recurrence at 122.
proof fn lemma_partition_at_122()
    ensures
        partition_number(122) == 2291320912,
{
    lemma_pentagonal_values();
    lemma_partition_terms_stable(122, 17, 122);
    assert(partition_terms(122, 0) == 0);
    lemma_partition_at_121();
    assert(partition_terms(122, 1) == 2056148051);
    lemma_partition_at_120();
    assert(partition_terms(122, 2) == 3900497611);
    lemma_partition_at_117();
    assert(partition_terms(122, 3) == 2572787535);
    lemma_partition_at_115();
    assert(partition_terms(122, 4) == 1508643084);
    lemma_partition_at_110();
    assert(partition_terms(122, 5) == 2115806830);
    lemma_partition_at_107();
    assert(partition_terms(122, 6) == 2546956219);
    lemma_partition_at_100();
    assert(partition_terms(122, 7) == 2356386927);
    lemma_partition_at_96();
    assert(partition_terms(122, 8) == 2238272623);
    lemma_partition_at_87();
    assert(partition_terms(122, 9) == 2277160296);
    lemma_partition_at_82();
    assert(partition_terms(122, 10) == 2297666551);
    lemma_partition_at_71();
    assert(partition_terms(122, 11) == 2292969346);
    lemma_partition_at_65();
    assert(partition_terms(122, 12) == 2290956788);
    lemma_partition_at_52();
    assert(partition_terms(122, 13) == 2291238377);
    lemma_partition_at_45();
    assert(partition_terms(122, 14) == 2291327511);
    lemma_partition_at_30();
    assert(partition_terms(122, 15) == 2291321907);
    lemma_partition_at_22();
    assert(partition_terms(122, 16) == 2291320905);
    lemma_partition_at_5();
    assert(partition_terms(122, 17) == 2291320912);
}

/// The recurrence at 123.
proof fn lemma_partition_at_123()
    ensures
        partition_number(123) == 2552338241,
{
    lemma_pentagonal_values();
    lemma_partition_terms_stable(123, 17, 123);
    assert(partition_terms(123, 0) == 0);
    lemma_partition_at_122();
    assert(partition_terms(123, 1) == 2291320912);
    lemma_partition_at_121();
    assert(partition_terms(123, 2) == 4347468963);
    lemma_partition_at_118();
    assert(partition_terms(123, 3) == 2865394820);
    lemma_partition_at_116();
    assert(partition_terms(123, 4) == 1676486572);
    lemma_partition_at_111();
    assert(partition_terms(123, 5) == 2356389775);
    lemma_partition_at_108();
    assert(partition_terms(123, 6) == 2839892619);
    lemma_partition_at_101();
    assert(partition_terms(123, 7) == 2625411493);
    lemma_partition_at_97();
    assert(partition_terms(123, 8) == 2492180563);
    lemma_partition_at_88();
    assert(partition_terms(123, 9) == 2536288672);
    lemma_partition_at_83();
    assert(partition_terms(123, 10) == 2559627141);
    lemma_partition_at_72();
    assert(partition_terms(123, 11) == 2554234358);
    lemma_partition_at_66();
    assert(partition_terms(123, 12) == 2551910838);
    lemma_partition_at_53();
    assert(partition_terms(123, 13) == 2552240769);
    lemma_partition_at_46();
    assert(partition_terms(123, 14) == 2552346327);
    lemma_partition_at_31();
    assert(partition_terms(123, 15) == 2552339485);
    lemma_partition_at_23();
    assert(partition_terms(123, 16) == 2552338230);
    lemma_partition_at_6();
    assert(partition_terms(123, 17) == 2552338241);
}

/// The recurrence at 124.
proof fn lemma_partition_at_124()
    ensures
        partition_number(124) == 2841940500,
{
    lemma_pentagonal_values();
    lemma_partition_terms_stable(124, 17, 124);
    assert(partition_terms(124, 0) == 0);
    lemma_partition_at_123();
    assert(partition_terms(124, 1) == 2552338241);
    lemma_partition_at_122();
    assert(partition_terms(124, 2) == 4843659153);
    lemma_partition_at_119();
    assert(partition_terms(124, 3) == 3189990488);
    lemma_partition_at_117();
    assert(partition_terms(124, 4) == 1862280412);
    lemma_partition_at_112();
    assert(partition_terms(124, 5) == 2623282568);
    lemma_partition_at_109();
    assert(partition_terms(124, 6) == 3165228808);
    lemma_partition_at_102();
    assert(partition_terms(124, 7) == 2923963429);
    lemma_partition_at_98();
    assert(partition_terms(124, 8) == 2773765293);
    lemma_partition_at_89();
    assert(partition_terms(124, 9) == 2823761218);
    lemma_partition_at_84();
    assert(partition_terms(124, 10) == 2850304878);
    lemma_partition_at_73();
    assert(partition_terms(124, 11) == 2844119189);
    lemma_partition_at_67();
    assert(partition_terms(124, 12) == 2841439500);
    lemma_partition_at_54();
    assert(partition_terms(124, 13) == 2841825655);
    lemma_partition_at_47();
    assert(partition_terms(124, 14) == 2841950409);
    lemma_partition_at_32();
    assert(partition_terms(124, 15) == 2841942060);
    lemma_partition_at_24();
    assert(partition_terms(124, 16) == 2841940485);
    lemma_partition_at_7();
    assert(partition_terms(124, 17) == 2841940500);
}

/// The recurrence at 125.
proof fn lemma_partition_at_125()
    ensures
        partition_number(125) == 3163127352,
{
    lemma_pentagonal_values();
    lemma_partition_terms_stable(125, 17, 125);
    assert(partition_terms(125, 0) == 0);
    lemma_partition_at_124();
    assert(partition_terms(125, 1) == 2841940500);
    lemma_partition_at_123();
    assert(partition_terms(125, 2) == 5394278741);
    lemma_partition_at_120();
    assert(partition_terms(125, 3) == 3549929181);
    lemma_partition_at_118();
    assert(partition_terms(125, 4) == 2067855038);
    lemma_partition_at_113();
    assert(partition_terms(125, 5) == 2919231666);
    lemma_partition_at_110();
    assert(partition_terms(125, 6) == 3526395412);
    lemma_partition_at_103();
    assert(partition_terms(125, 7) == 3255146462);
    lemma_partition_at_99();
    assert(partition_terms(125, 8) == 3085916587);
    lemma_partition_at_90();
    assert(partition_terms(125, 9) == 3142550760);
    lemma_partition_at_85();
    assert(partition_terms(125, 10) == 3172718117);
    lemma_partition_at_74();
    assert(partition_terms(125, 11) == 3165628617);
    lemma_partition_at_68();
    assert(partition_terms(125, 12) == 3162540882);
    lemma_partition_at_55();
    assert(partition_terms(125, 13) == 3162992158);
    lemma_partition_at_48();
    assert(partition_terms(125, 14) == 3163139431);
    lemma_partition_at_33();
    assert(partition_terms(125, 15) == 3163129288);
    lemma_partition_at_25();
    assert(partition_terms(125, 16) == 3163127330);
    lemma_partition_at_8();
    assert(partition_terms(125, 17) == 3163127352);
}

/// The recurrence at 126.
proof fn lemma_partition_at_126()
    ensures
        partition_number(126) == 3519222692,
{
    lemma_pentagonal_values();
    lemma_partition_terms_stable(126, 18, 126);
    assert(partition_terms(126, 0) == 0);
    lemma_partition_at_125();
    assert(partition_terms(126, 1) == 3163127352);
    lemma_partition_at_124();
    assert(partition_terms(126, 2) == 6005067852);
    lemma_partition_at_121();
    assert(partition_terms(126, 3) == 3948919801);
    lemma_partition_at_119();
    assert(partition_terms(126, 4) == 2295251136);
    lemma_partition_at_114();
    assert(partition_terms(126, 5) == 3247301801);
    lemma_partition_at_111();
    assert(partition_terms(126, 6) == 3927205004);
    lemma_partition_at_104();
    assert(partition_terms(126, 7) == 3622403639);
    lemma_partition_at_100();
    assert(partition_terms(126, 8) == 3431834347);
    lemma_partition_at_91();
    assert(partition_terms(126, 9) == 3495946706);
    lemma_partition_at_86();
    assert(partition_terms(126, 10) == 3530209668);
    lemma_partition_at_75();
    assert(partition_terms(126, 11) == 3522091404);
    lemma_partition_at_69();
    assert(partition_terms(126, 12) == 3518537059);
    lemma_partition_at_56();
    assert(partition_terms(126, 13) == 3519063882);
    lemma_partition_at_49();
    assert(partition_terms(126, 14) == 3519237407);
    lemma_partition_at_34();
    assert(partition_terms(126, 15) == 3519225097);
    lemma_partition_at_26();
    assert(partition_terms(126, 16) == 3519222661);
    lemma_partition_at_9();
    assert(partition_terms(126, 17) == 3519222691);
    lemma_partition_at_0();
    assert(partition_terms(126, 18) == 3519222692);
}

/// The recurrence at 127.
proof fn lemma_partition_at_127()
    ensures
        partition_number(127) == 3913864295,
{
    lemma_pentagonal_values();
    lemma_partition_terms_stable(127, 18, 127);
    assert(partition_terms(127, 0) == 0);
    lemma_partition_at_126();
    assert(partition_terms(127, 1) == 3519222692);
    lemma_partition_at_125();
    assert(partition_terms(127, 2) == 6682350044);
    lemma_partition_at_122();
    assert(partition_terms(127, 3) == 4391029132);
    lemma_partition_at_120();
    assert(partition_terms(127, 4) == 2546679572);
    lemma_partition_at_115();
    assert(partition_terms(127, 5) == 3610824023);
    lemma_partition_at_112();
    assert(partition_terms(127, 6) == 4371826179);
    lemma_partition_at_105();
    assert(partition_terms(127, 7) == 4029500470);
    lemma_partition_at_101();
    assert(partition_terms(127, 8) == 3815019344);
    lemma_partition_at_92();
    assert(partition_terms(127, 9) == 3887553151);
    lemma_partition_at_87();
    assert(partition_terms(127, 10) == 3926440824);
    lemma_partition_at_76();
    assert(partition_terms(127, 11) == 3917151733);
    lemma_partition_at_70();
    assert(partition_terms(127, 12) == 3913063765);
    lemma_partition_at_57();
    assert(partition_terms(127, 13) == 3913677919);
    lemma_partition_at_50();
    assert(partition_terms(127, 14) == 3913882145);
    lemma_partition_at_35();
    assert(partition_terms(127, 15) == 3913867262);
    lemma_partition_at_27();
    assert(partition_terms(127, 16) == 3913864252);
    lemma_partition_at_10();
    assert(partition_terms(127, 17) == 3913864294);
    lemma_partition_at_1();
    assert(partition_terms(127, 18) == 3913864295);
}

/// The recurrence at 128.
proof fn lemma_partition_at_128()
    ensures
        partition_number(128) == 4351078600,
{
    lemma_pentagonal_values();
    lemma_partition_terms_stable(128, 18, 128);
    assert(partition_terms(128, 0) == 0);
    lemma_partition_at_127();
    assert(partition_terms(128, 1) == 3913864295);
    lemma_partition_at_126();
    assert(partition_terms(128, 2) == 7433086987);
    lemma_partition_at_123();
    assert(partition_terms(128, 3) == 4880748746);
    lemma_partition_at_121();
    assert(partition_terms(128, 4) == 2824600695);
    lemma_partition_at_116();
    assert(partition_terms(128, 5) == 4013508943);
    lemma_partition_at_113();
    assert(partition_terms(128, 6) == 4864885571);
    lemma_partition_at_106();
    assert(partition_terms(128, 7) == 4480609235);
    lemma_partition_at_102();
    assert(partition_terms(128, 8) == 4239343856);
    lemma_partition_at_93();
    assert(partition_terms(128, 9) == 4321354033);
    lemma_partition_at_88();
    assert(partition_terms(128, 10) == 4365462142);
    lemma_partition_at_77();
    assert(partition_terms(128, 11) == 4354842279);
    lemma_partition_at_71();
    assert(partition_terms(128, 12) == 4350145074);
    lemma_partition_at_58();
    assert(partition_terms(128, 13) == 4350860294);
    lemma_partition_at_51();
    assert(partition_terms(128, 14) == 4351100237);
    lemma_partition_at_36();
    assert(partition_terms(128, 15) == 4351082260);
    lemma_partition_at_28();
    assert(partition_terms(128, 16) == 4351078542);
    lemma_partition_at_11();
    assert(partition_terms(128, 17) == 4351078598);
    lemma_partition_at_2();
    assert(partition_terms(128, 18) == 4351078600);
}

/// The recurrence at 129.
proof fn lemma_partition_at_129()
    ensures
        partition_number(129) == 4835271870,
{
    lemma_pentagonal_values();
    lemma_partition_terms_stable(129, 18, 129);
    assert(partition_terms(129, 0) == 0);
    lemma_partition_at_128();
    assert(partition_terms(129, 1) == 4351078600);
    lemma_partition_at_127();
    assert(partition_terms(129, 2) == 8264942895);
    lemma_partition_at_124();
    assert(partition_terms(129, 3) == 5423002395);
    lemma_partition_at_122();
    assert(partition_terms(129, 4) == 3131681483);
    lemma_partition_at_117();
    assert(partition_terms(129, 5) == 4459391559);
    lemma_partition_at_114();
    assert(partition_terms(129, 6) == 5411442224);
    lemma_partition_at_107();
    assert(partition_terms(129, 7) == 4980292835);
    lemma_partition_at_103();
    assert(partition_terms(129, 8) == 4709043885);
    lemma_partition_at_94();
    assert(partition_terms(129, 9) == 4801713605);
    lemma_partition_at_89();
    assert(partition_terms(129, 10) == 4851709530);
    lemma_partition_at_78();
    assert(partition_terms(129, 11) == 4839577366);
    lemma_partition_at_72();
    assert(partition_terms(129, 12) == 4834184583);
    lemma_partition_at_59();
    assert(partition_terms(129, 13) == 4835016403);
    lemma_partition_at_52();
    assert(partition_terms(129, 14) == 4835297992);
    lemma_partition_at_37();
    assert(partition_terms(129, 15) == 4835276355);
    lemma_partition_at_29();
    assert(partition_terms(129, 16) == 4835271790);
    lemma_partition_at_12();
    assert(partition_terms(129, 17) == 4835271867);
    lemma_partition_at_3();
    assert(partition_terms(129, 18) == 4835271870);
}

/// The recurrence at 130.
proof fn lemma_partition_at_130()
    ensures
        partition_number(130) == 5371315400,
{
    lemma_pentagonal_values();
    lemma_partition_terms_stable(130, 18, 130);
    assert(partition_terms(130, 0) == 0);
    lemma_partition_at_129();
    assert(partition_terms(130, 1) == 4835271870);
    lemma_partition_at_128();
    assert(partition_terms(130, 2) == 9186350470);
    lemma_partition_at_125();
    assert(partition_terms(130, 3) == 6023223118);
    lemma_partition_at_123();
    assert(partition_terms(130, 4) == 3470884877);
    lemma_partition_at_118();
    assert(partition_terms(130, 5) == 4952959020);
    lemma_partition_at_115();
    assert(partition_terms(130, 6) == 6017103471);
    lemma_partition_at_108();
    assert(partition_terms(130, 7) == 5533600627);
    lemma_partition_at_104();
    assert(partition_terms(130, 8) == 5228799262);
    lemma_partition_at_95();
    assert(partition_terms(130, 9) == 5333450681);
    lemma_partition_at_90();
    assert(partition_terms(130, 10) == 5390084854);
    lemma_partition_at_79();
    assert(partition_terms(130, 11) == 5376236204);
    lemma_partition_at_73();
    assert(partition_terms(130, 12) == 5370050515);
    lemma_partition_at_60();
    assert(partition_terms(130, 13) == 5371016982);
    lemma_partition_at_53();
    assert(partition_terms(130, 14) == 5371346913);
    lemma_partition_at_38();
    assert(partition_terms(130, 15) == 5371320898);
    lemma_partition_at_30();
    assert(partition_terms(130, 16) == 5371315294);
    lemma_partition_at_13();
    assert(partition_terms(130, 17) == 5371315395);
    lemma_partition_at_4();
    assert(partition_terms(130, 18) == 5371315400);
}

/// The recurrence at 131.
proof fn lemma_partition_at_131()
    ensures
        partition_number(131) == 5964539504,
{
    lemma_pentagonal_values();
    lemma_partition_terms_stable(131, 18, 131);
    assert(partition_terms(131, 0) == 0);
    lemma_partition_at_130();
    assert(partition_terms(131, 1) == 5371315400);
    lemma_partition_at_129();
    assert(partition_terms(131, 2) == 10206587270);
    lemma_partition_at_126();
    assert(partition_terms(131, 3) == 6687364578);
    lemma_partition_at_124();
    assert(partition_terms(131, 4) == 3845424078);
    lemma_partition_at_119();
    assert(partition_terms(131, 5) == 5499092743);
    lemma_partition_at_116();
    assert(partition_terms(131, 6) == 6688000991);
    lemma_partition_at_109();
    assert(partition_terms(131, 7) == 6146054751);
    lemma_partition_at_105();
    assert(partition_terms(131, 8) == 5803729042);
    lemma_partition_at_96();
    assert(partition_terms(131, 9) == 5921843346);
    lemma_partition_at_91();
    assert(partition_terms(131, 10) == 5985955705);
    lemma_partition_at_80();
    assert(partition_terms(131, 11) == 5970159229);
    lemma_partition_at_74();
    assert(partition_terms(131, 12) == 5963069729);
    lemma_partition_at_61();
    assert(partition_terms(131, 13) == 5964191234);
    lemma_partition_at_54();
    assert(partition_terms(131, 14) == 5964577389);
    lemma_partition_at_39();
    assert(partition_terms(131, 15) == 5964546204);
    lemma_partition_at_31();
    assert(partition_terms(131, 16) == 5964539362);
    lemma_partition_at_14();
    assert(partition_terms(131, 17) == 5964539497);
    lemma_partition_at_5();
    assert(partition_terms(131, 18) == 5964539504);
}

/// The recurrence at 132.
proof fn lemma_partition_at_132()
    ensures
        partition_number(132) == 6620830889,
{
    lemma_pentagonal_values();
    lemma_partition_terms_stable(132, 18, 132);
    assert(partition_terms(132, 0) == 0);
    lemma_partition_at_131();
    assert(partition_terms(132, 1) == 5964539504);
    lemma_partition_at_130();
    assert(partition_terms(132, 2) == 11335854904);
    lemma_partition_at_127();
    assert(partition_terms(132, 3) == 7421990609);
    lemma_partition_at_125();
    assert(partition_terms(132, 4) == 4258863257);
    lemma_partition_at_120();
    assert(partition_terms(132, 5) == 6103212817);
    lemma_partition_at_117();
    assert(partition_terms(132, 6) == 7430922893);
    lemma_partition_at_110();
    assert(partition_terms(132, 7) == 6823759147);
    lemma_partition_at_106();
    assert(partition_terms(132, 8) == 6439482811);
    lemma_partition_at_97();
    assert(partition_terms(132, 9) == 6572713741);
    lemma_partition_at_92();
    assert(partition_terms(132, 10) == 6645247548);
    lemma_partition_at_81();
    assert(partition_terms(132, 11) == 6627243221);
    lemma_partition_at_75();
    assert(partition_terms(132, 12) == 6619124957);
    lemma_partition_at_62();
    assert(partition_terms(132, 13) == 6620425113);
    lemma_partition_at_55();
    assert(partition_terms(132, 14) == 6620876389);
    lemma_partition_at_40();
    assert(partition_terms(132, 15) == 6620839051);
    lemma_partition_at_32();
    assert(partition_terms(132, 16) == 6620830702);
    lemma_partition_at_15();
    assert(partition_terms(132, 17) == 6620830878);
    lemma_partition_at_6();
    assert(partition_terms(132, 18) == 6620830889);
}

/// The recurrence at 133.
proof fn lemma_partition_at_133()
    ensures
        partition_number(133) == 7346629512,
{
    lemma_pentagonal_values();
    lemma_partition_terms_stable(133, 18, 133);
    assert(partition_terms(133, 0) == 0);
    lemma_partition_at_132();
    assert(partition_terms(133, 1) == 6620830889);
    lemma_partition_at_131();
    assert(partition_terms(133, 2) == 12585370393);
    lemma_partition_at_128();
    assert(partition_terms(133, 3) == 8234291793);
    lemma_partition_at_126();
    assert(partition_terms(133, 4) == 4715069101);
    lemma_partition_at_121();
    assert(partition_terms(133, 5) == 6771217152);
    lemma_partition_at_118();
    assert(partition_terms(133, 6) == 8253291295);
    lemma_partition_at_111();
    assert(partition_terms(133, 7) == 7573388092);
    lemma_partition_at_107();
    assert(partition_terms(133, 8) == 7142238703);
    lemma_partition_at_98();
    assert(partition_terms(133, 9) == 7292436839);
    lemma_partition_at_93();
    assert(partition_terms(133, 10) == 7374447016);
    lemma_partition_at_82();
    assert(partition_terms(133, 11) == 7353940761);
    lemma_partition_at_76();
    assert(partition_terms(133, 12) == 7344651670);
    lemma_partition_at_63();
    assert(partition_terms(133, 13) == 7346157169);
    lemma_partition_at_56();
    assert(partition_terms(133, 14) == 7346683992);
    lemma_partition_at_41();
    assert(partition_terms(133, 15) == 7346639409);
    lemma_partition_at_33();
    assert(partition_terms(133, 16) == 7346629266);
    lemma_partition_at_16();
    assert(partition_terms(133, 17) == 7346629497);
    lemma_partition_at_7();
    assert(partition_terms(133, 18) == 7346629512);
}

/// The recurrence at 134.
proof fn lemma_partition_at_134()
    ensures
        partition_number(134) == 8149040695,
{
    lemma_pentagonal_values();
    lemma_partition_terms_stable(134, 18, 134);
    assert(partition_terms(134, 0) == 0);
    lemma_partition_at_133();
    assert(partition_terms(134, 1) == 7346629512);
    lemma_partition_at_132();
    assert(partition_terms(134, 2) == 13967460401);
    lemma_partition_at_129();
    assert(partition_terms(134, 3) == 9132188531);
    lemma_partition_at_127();
    assert(partition_terms(134, 4) == 5218324236);
    lemma_partition_at_122();
    assert(partition_terms(134, 5) == 7509645148);
    lemma_partition_at_119();
    assert(partition_terms(134, 6) == 9163313813);
    lemma_partition_at_112();
    assert(partition_terms(134, 7) == 8402311657);
    lemma_partition_at_108();
    assert(partition_terms(134, 8) == 7918808813);
    lemma_partition_at_99();
    assert(partition_terms(134, 9) == 8088038688);
    lemma_partition_at_94();
    assert(partition_terms(134, 10) == 8180708408);
    lemma_partition_at_83();
    assert(partition_terms(134, 11) == 8157369939);
    lemma_partition_at_77();
    assert(partition_terms(134, 12) == 8146750076);
    lemma_partition_at_64();
    assert(partition_terms(134, 13) == 8148491706);
    lemma_partition_at_57();
    assert(partition_terms(134, 14) == 8149105860);
    lemma_partition_at_42();
    assert(partition_terms(134, 15) == 8149052686);
    lemma_partition_at_34();
    assert(partition_terms(134, 16) == 8149040376);
    lemma_partition_at_17();
    assert(partition_terms(134, 17) == 8149040673);
    lemma_partition_at_8();
    assert(partition_terms(134, 18) == 8149040695);
}

/// The recurrence at 135.
proof fn lemma_partition_at_135()
    ensures
        partition_number(135) == 9035836076,
{
    lemma_pentagonal_values();
    lemma_partition_terms_stable(135, 18, 135);
    assert(partition_terms(135, 0) == 0);
    lemma_partition_at_134();
    assert(partition_terms(135, 1) == 8149040695);
    lemma_partition_at_133();
    assert(partition_terms(135, 2) == 15495670207);
    lemma_partition_at_130();
    assert(partition_terms(135, 3) == 10124354807);
    lemma_partition_at_128();
    assert(partition_terms(135, 4) == 5773276207);
    lemma_partition_at_123();
    assert(partition_terms(135, 5) == 8325614448);
    lemma_partition_at_120();
    assert(partition_terms(135, 6) == 10169964008);
    lemma_partition_at_113();
    assert(partition_terms(135, 7) == 9318587380);
    lemma_partition_at_109();
    assert(partition_terms(135, 8) == 8776641140);
    lemma_partition_at_100();
    assert(partition_terms(135, 9) == 8967210432);
    lemma_partition_at_95();
    assert(partition_terms(135, 10) == 9071861851);
    lemma_partition_at_84();
    assert(partition_terms(135, 11) == 9045318191);
    lemma_partition_at_78();
    assert(partition_terms(135, 12) == 9033186027);
    lemma_partition_at_65();
    assert(partition_terms(135, 13) == 9035198585);
    lemma_partition_at_58();
    assert(partition_terms(135, 14) == 9035913805);
    lemma_partition_at_43();
    assert(partition_terms(135, 15) == 9035850544);
    lemma_partition_at_35();
    assert(partition_terms(135, 16) == 9035835661);
    lemma_partition_at_18();
    assert(partition_terms(135, 17) == 9035836046);
    lemma_partition_at_9();
    assert(partition_terms(135, 18) == 9035836076);
}

/// The recurrence at 136.
proof fn lemma_partition_at_136()
    ensures
        partition_number(136) == 10015581680,
{
    lemma_pentagonal_values();
    lemma_partition_terms_stable(136, 18, 136);
    assert(partition_terms(136, 0) == 0);
    lemma_partition_at_135();
    assert(partition_terms(136, 1) == 9035836076);
    lemma_partition_at_134();
    assert(partition_terms(136, 2) == 17184876771);
    lemma_partition_at_131();
    assert(partition_terms(136, 3) == 11220337267);
    lemma_partition_at_129();
    assert(partition_terms(136, 4) == 6385065397);
    lemma_partition_at_124();
    assert(partition_terms(136, 5) == 9227005897);
    lemma_partition_at_121();
    assert(partition_terms(136, 6) == 11283153948);
    lemma_partition_at_114();
    assert(partition_terms(136, 7) == 10331103283);
    lemma_partition_at_110();
    assert(partition_terms(136, 8) == 9723939537);
    lemma_partition_at_101();
    assert(partition_terms(136, 9) == 9938420663);
    lemma_partition_at_96();
    assert(partition_terms(136, 10) == 10056534967);
    lemma_partition_at_85();
    assert(partition_terms(136, 11) == 10026367610);
    lemma_partition_at_79();
    assert(partition_terms(136, 12) == 10012518960);
    lemma_partition_at_66();
    assert(partition_terms(136, 13) == 10014842480);
    lemma_partition_at_59();
    assert(partition_terms(136, 14) == 10015674300);
    lemma_partition_at_44();
    assert(partition_terms(136, 15) == 10015599125);
    lemma_partition_at_36();
    assert(partition_terms(136, 16) == 10015581148);
    lemma_partition_at_19();
    assert(partition_terms(136, 17) == 10015581638);
    lemma_partition_at_10();
    assert(partition_terms(136, 18) == 10015581680);
}

/// The recurrence at 137.
proof fn lemma_partition_at_137()
    ensures
        partition_number(137) == 11097645016,
{
    lemma_pentagonal_values();
    lemma_partition_terms_stable(137, 18, 137);
    assert(partition_terms(137, 0) == 0);
    lemma_partition_at_136();
    assert(partition_terms(137, 1) == 10015581680);
    lemma_partition_at_135();
    assert(partition_terms(137, 2) == 19051417756);
    lemma_partition_at_132();
    assert(partition_terms(137, 3) == 12430586867);
    lemma_partition_at_130();
    assert(partition_terms(137, 4) == 7059271467);
    lemma_partition_at_125();
    assert(partition_terms(137, 5) == 10222398819);
    lemma_partition_at_122();
    assert(partition_terms(137, 6) == 12513719731);
    lemma_partition_at_115();
    assert(partition_terms(137, 7) == 11449575280);
    lemma_partition_at_111();
    assert(partition_terms(137, 8) == 10769672077);
    lemma_partition_at_102();
    assert(partition_terms(137, 9) == 11010937456);
    lemma_partition_at_97();
    assert(partition_terms(137, 10) == 11144168386);
    lemma_partition_at_86();
    assert(partition_terms(137, 11) == 11109905424);
    lemma_partition_at_80();
    assert(partition_terms(137, 12) == 11094108948);
    lemma_partition_at_67();
    assert(partition_terms(137, 13) == 11096788637);
    lemma_partition_at_60();
    assert(partition_terms(137, 14) == 11097755104);
    lemma_partition_at_45();
    assert(partition_terms(137, 15) == 11097665970);
    lemma_partition_at_37();
    assert(partition_terms(137, 16) == 11097644333);
    lemma_partition_at_20();
    assert(partition_terms(137, 17) == 11097644960);
    lemma_partition_at_11();
    assert(partition_terms(137, 18) == 11097645016);
}

/// The recurrence at 138.
proof fn lemma_partition_at_138()
    ensures
        partition_number(138) == 12292341831,
{
    lemma_pentagonal_values();
    lemma_partition_terms_stable(138, 18, 138);
    assert(partition_terms(138, 0) == 0);
    lemma_partition_at_137();
    assert(partition_terms(138, 1) == 11097645016);
    lemma_partition_at_136();
    assert(partition_terms(138, 2) == 21113226696);
    lemma_partition_at_133();
    assert(partition_terms(138, 3) == 13766597184);
    lemma_partition_at_131();
    assert(partition_terms(138, 4) == 7802057680);
    lemma_partition_at_126();
    assert(partition_terms(138, 5) == 11321280372);
    lemma_partition_at_123();
    assert(partition_terms(138, 6) == 13873618613);
    lemma_partition_at_116();
    assert(partition_terms(138, 7) == 12684710365);
    lemma_partition_at_112();
    assert(partition_terms(138, 8) == 11923708209);
    lemma_partition_at_103();
    assert(partition_terms(138, 9) == 12194957159);
    lemma_partition_at_98();
    assert(partition_terms(138, 10) == 12345155295);
    lemma_partition_at_87();
    assert(partition_terms(138, 11) == 12306267622);
    lemma_partition_at_81();
    assert(partition_terms(138, 12) == 12288263295);
    lemma_partition_at_68();
    assert(partition_terms(138, 13) == 12291351030);
    lemma_partition_at_61();
    assert(partition_terms(138, 14) == 12292472535);
    lemma_partition_at_46();
    assert(partition_terms(138, 15) == 12292366977);
    lemma_partition_at_38();
    assert(partition_terms(138, 16) == 12292340962);
    lemma_partition_at_21();
    assert(partition_terms(138, 17) == 12292341754);
    lemma_partition_at_12();
    assert(partition_terms(138, 18) == 12292341831);
}

/// The recurrence at 139.
proof fn lemma_partition_at_139()
    ensures
        partition_number(139) == 13610949895,
{
    lemma_pentagonal_values();
    lemma_partition_terms_stable(139, 18, 139);
    assert(partition_terms(139, 0) == 0);
    lemma_partition_at_138();
    assert(partition_terms(139, 1) == 12292341831);
    lemma_partition_at_137();
    assert(partition_terms(139, 2) == 23389986847);
    lemma_partition_at_134();
    assert(partition_terms(139, 3) == 15240946152);
    lemma_partition_at_132();
    assert(partition_terms(139, 4) == 8620115263);
    lemma_partition_at_127();
    assert(partition_terms(139, 5) == 12533979558);
    lemma_partition_at_124();
    assert(partition_terms(139, 6) == 15375920058);
    lemma_partition_at_117();
    assert(partition_terms(139, 7) == 14048209982);
    lemma_partition_at_113();
    assert(partition_terms(139, 8) == 13196833354);
    lemma_partition_at_104();
    assert(partition_terms(139, 9) == 13501634719);
    lemma_partition_at_99();
    assert(partition_terms(139, 10) == 13670864594);
    lemma_partition_at_88();
    assert(partition_terms(139, 11) == 13626756485);
    lemma_partition_at_82();
    assert(partition_terms(139, 12) == 13606250230);
    lemma_partition_at_69();
    assert(partition_terms(139, 13) == 13609804575);
    lemma_partition_at_62();
    assert(partition_terms(139, 14) == 13611104731);
    lemma_partition_at_47();
    assert(partition_terms(139, 15) == 13610979977);
    lemma_partition_at_39();
    assert(partition_terms(139, 16) == 13610948792);
    lemma_partition_at_22();
    assert(partition_terms(139, 17) == 13610949794);
    lemma_partition_at_13();
    assert(partition_terms(139, 18) == 13610949895);
}

/// The recurrence at 140.
proof fn lemma_partition_at_140()
    ensures
        partition_number(140) == 15065878135,
{
    lemma_pentagonal_values();
    lemma_partition_terms_stable(140, 18, 140);
    assert(partition_terms(140, 0) == 0);
    lemma_partition_at_139();
    assert(partition_terms(140, 1) == 13610949895);
    lemma_partition_at_138();
    assert(partition_terms(140, 2) == 25903291726);
    lemma_partition_at_135();
    assert(partition_terms(140, 3) == 16867455650);
    lemma_partition_at_133();
    assert(partition_terms(140, 4) == 9520826138);
    lemma_partition_at_128();
    assert(partition_terms(140, 5) == 13871904738);
    lemma_partition_at_125();
    assert(partition_terms(140, 6) == 17035032090);
    lemma_partition_at_118();
    assert(partition_terms(140, 7) == 15552957947);
    lemma_partition_at_114();
    assert(partition_terms(140, 8) == 14600907282);
    lemma_partition_at_105();
    assert(partition_terms(140, 9) == 14943232991);
    lemma_partition_at_100();
    assert(partition_terms(140, 10) == 15133802283);
    lemma_partition_at_89();
    assert(partition_terms(140, 11) == 15083806358);
    lemma_partition_at_83();
    assert(partition_terms(140, 12) == 15060467889);
    lemma_partition_at_70();
    assert(partition_terms(140, 13) == 15064555857);
    lemma_partition_at_63();
    assert(partition_terms(140, 14) == 15066061356);
    lemma_partition_at_48();
    assert(partition_terms(140, 15) == 15065914083);
    lemma_partition_at_40();
    assert(partition_terms(140, 16) == 15065876745);
    lemma_partition_at_23();
    assert(partition_terms(140, 17) == 15065878000);
    lemma_partition_at_14();
    assert(partition_terms(140, 18) == 15065878135);
}

/// The recurrence at 141.
proof fn lemma_partition_at_141()
    ensures
        partition_number(141) == 16670689208,
{
    lemma_pentagonal_values();
    lemma_partition_terms_stable(141, 18, 141);
    assert(partition_terms(141, 0) == 0);
    lemma_partition_at_140();
    assert(partition_terms(141, 1) == 15065878135);
    lemma_partition_at_139();
    assert(partition_terms(141, 2) == 28676828030);
    lemma_partition_at_136();
    assert(partition_terms(141, 3) == 18661246350);
    lemma_partition_at_134();
    assert(partition_terms(141, 4) == 10512205655);
    lemma_partition_at_129();
    assert(partition_terms(141, 5) == 15347477525);
    lemma_partition_at_126();
    assert(partition_terms(141, 6) == 18866700217);
    lemma_partition_at_119();
    assert(partition_terms(141, 7) == 17213031552);
    lemma_partition_at_115();
    assert(partition_terms(141, 8) == 16148887101);
    lemma_partition_at_106();
    assert(partition_terms(141, 9) == 16533163437);
    lemma_partition_at_101();
    assert(partition_terms(141, 10) == 16747644563);
    lemma_partition_at_90();
    assert(partition_terms(141, 11) == 16691010390);
    lemma_partition_at_84();
    assert(partition_terms(141, 12) == 16664466730);
    lemma_partition_at_71();
    assert(partition_terms(141, 13) == 16669163935);
    lemma_partition_at_64();
    assert(partition_terms(141, 14) == 16670905565);
    lemma_partition_at_49();
    assert(partition_terms(141, 15) == 16670732040);
    lemma_partition_at_41();
    assert(partition_terms(141, 16) == 16670687457);
    lemma_partition_at_24();
    assert(partition_terms(141, 17) == 16670689032);
    lemma_partition_at_15();
    assert(partition_terms(141, 18) == 16670689208);
}

/// The recurrence at 142.
proof fn lemma_partition_at_142()
    ensures
        partition_number(142) == 18440293320,
{
    lemma_pentagonal_values();
    lemma_partition_terms_stable(142, 18, 142);
    assert(partition_terms(142, 0) == 0);
    lemma_partition_at_141();
    assert(partition_terms(142, 1) == 16670689208);
    lemma_partition_at_140();
    assert(partition_terms(142, 2) == 31736567343);
    lemma_partition_at_137();
    assert(partition_terms(142, 3) == 20638922327);
    lemma_partition_at_135();
    assert(partition_terms(142, 4) == 11603086251);
    lemma_partition_at_130();
    assert(partition_terms(142, 5) == 16974401651);
    lemma_partition_at_127();
    assert(partition_terms(142, 6) == 20888265946);
    lemma_partition_at_120();
    assert(partition_terms(142, 7) == 19043916386);
    lemma_partition_at_116();
    assert(partition_terms(142, 8) == 17855008138);
    lemma_partition_at_107();
    assert(partition_terms(142, 9) == 18286157527);
    lemma_partition_at_102();
    assert(partition_terms(142, 10) == 18527422906);
    lemma_partition_at_91();
    assert(partition_terms(142, 11) == 18463310547);
    lemma_partition_at_85();
    assert(partition_terms(142, 12) == 18433143190);
    lemma_partition_at_72();
    assert(partition_terms(142, 13) == 18438535973);
    lemma_partition_at_65();
    assert(partition_terms(142, 14) == 18440548531);
    lemma_partition_at_50();
    assert(partition_terms(142, 15) == 18440344305);
    lemma_partition_at_42();
    assert(partition_terms(142, 16) == 18440291131);
    lemma_partition_at_25();
    assert(partition_terms(142, 17) == 18440293089);
    lemma_partition_at_16();
    assert(partition_terms(142, 18) == 18440293320);
}

/// The recurrence at 143.
proof fn lemma_partition_at_143()
    ensures
        partition_number(143) == 20390982757,
{
    lemma_pentagonal_values();
    lemma_partition_terms_stable(143, 18, 143);
    assert(partition_terms(143, 0) == 0);
    lemma_partition_at_142();
    assert(partition_terms(143, 1) == 18440293320);
    lemma_partition_at_141();
    assert(partition_terms(143, 2) == 35110982528);
    lemma_partition_at_138();
    assert(partition_terms(143, 3) == 22818640697);
    lemma_partition_at_136();
    assert(partition_terms(143, 4) == 12803059017);
    lemma_partition_at_131();
    assert(partition_terms(143, 5) == 18767598521);
    lemma_partition_at_128();
    assert(partition_terms(143, 6) == 23118677121);
    lemma_partition_at_121();
    assert(partition_terms(143, 7) == 21062529070);
    lemma_partition_at_117();
    assert(partition_terms(143, 8) == 19734818994);
    lemma_partition_at_108();
    assert(partition_terms(143, 9) == 20218321838);
    lemma_partition_at_103();
    assert(partition_terms(143, 10) == 20489570788);
    lemma_partition_at_92();
    assert(partition_terms(143, 11) == 20417036981);
    lemma_partition_at_86();
    assert(partition_terms(143, 12) == 20382774019);
    lemma_partition_at_73();
    assert(partition_terms(143, 13) == 20388959708);
    lemma_partition_at_66();
    assert(partition_terms(143, 14) == 20391283228);
    lemma_partition_at_51();
    assert(partition_terms(143, 15) == 20391043285);
    lemma_partition_at_43();
    assert(partition_terms(143, 16) == 20390980024);
    lemma_partition_at_26();
    assert(partition_terms(143, 17) == 20390982460);
    lemma_partition_at_17();
    assert(partition_terms(143, 18) == 20390982757);
}

/// The recurrence at 144.
proof fn lemma_partition_at_144()
    ensures
        partition_number(144) == 22540654445,
{
    lemma_pentagonal_values();
    lemma_partition_terms_stable(144, 18, 144);
    assert(partition_terms(144, 0) == 0);
    lemma_partition_at_143();
    assert(partition_terms(144, 1) == 20390982757);
    lemma_partition_at_142();
    assert(partition_terms(144, 2) == 38831276077);
    lemma_partition_at_139();
    assert(partition_terms(144, 3) == 25220326182);
    lemma_partition_at_137();
    assert(partition_terms(144, 4) == 14122681166);
    lemma_partition_at_132();
    assert(partition_terms(144, 5) == 20743512055);
    lemma_partition_at_129();
    assert(partition_terms(144, 6) == 25578783925);
    lemma_partition_at_122();
    assert(partition_terms(144, 7) == 23287463013);
    lemma_partition_at_118();
    assert(partition_terms(144, 8) == 21805388870);
    lemma_partition_at_109();
    assert(partition_terms(144, 9) == 22347335110);
    lemma_partition_at_104();
    assert(partition_terms(144, 10) == 22652136475);
    lemma_partition_at_93();
    assert(partition_terms(144, 11) == 22570126298);
    lemma_partition_at_87();
    assert(partition_terms(144, 12) == 22531238625);
    lemma_partition_at_74();
    assert(partition_terms(144, 13) == 22538328125);
    lemma_partition_at_67();
    assert(partition_terms(144, 14) == 22541007814);
    lemma_partition_at_52();
    assert(partition_terms(144, 15) == 22540726225);
    lemma_partition_at_44();
    assert(partition_terms(144, 16) == 22540651050);
    lemma_partition_at_27();
    assert(partition_terms(144, 17) == 22540654060);
    lemma_partition_at_18();
    assert(partition_terms(144, 18) == 22540654445);
}

/// The recurrence at 145.
proof fn lemma_partition_at_145()
    ensures
        partition_number(145) == 24908858009,
{
    lemma_pentagonal_values();
    lemma_partition_terms_stable(145, 19, 145);
    assert(partition_terms(145, 0) == 0);
    lemma_partition_at_144();
    assert(partition_terms(145, 1) == 22540654445);
    lemma_partition_at_143();
    assert(partition_terms(145, 2) == 42931637202);
    lemma_partition_at_140();
    assert(partition_terms(145, 3) == 27865759067);
    lemma_partition_at_138();
    assert(partition_terms(145, 4) == 15573417236);
    lemma_partition_at_133();
    assert(partition_terms(145, 5) == 22920046748);
    lemma_partition_at_130();
    assert(partition_terms(145, 6) == 28291362148);
    lemma_partition_at_123();
    assert(partition_terms(145, 7) == 25739023907);
    lemma_partition_at_119();
    assert(partition_terms(145, 8) == 24085355242);
    lemma_partition_at_110();
    assert(partition_terms(145, 9) == 24692518988);
    lemma_partition_at_105();
    assert(partition_terms(145, 10) == 25034844697);
    lemma_partition_at_94();
    assert(partition_terms(145, 11) == 24942174977);
    lemma_partition_at_88();
    assert(partition_terms(145, 12) == 24898066868);
    lemma_partition_at_75();
    assert(partition_terms(145, 13) == 24906185132);
    lemma_partition_at_68();
    assert(partition_terms(145, 14) == 24909272867);
    lemma_partition_at_53();
    assert(partition_terms(145, 15) == 24908942936);
    lemma_partition_at_45();
    assert(partition_terms(145, 16) == 24908853802);
    lemma_partition_at_28();
    assert(partition_terms(145, 17) == 24908857520);
    lemma_partition_at_19();
    assert(partition_terms(145, 18) == 24908858010);
    lemma_partition_at_0();
    assert(partition_terms(145, 19) == 24908858009);
}

/// The recurrence at 146.
proof fn lemma_partition_at_146()
    ensures
        partition_number(146) == 27517052599,
{
    lemma_pentagonal_values();
    lemma_partition_terms_stable(146, 19, 146);
    assert(partition_terms(146, 0) == 0);
    lemma_partition_at_145();
    assert(partition_terms(146, 1) == 24908858009);
    lemma_partition_at_144();
    assert(partition_terms(146, 2) == 47449512454);
    lemma_partition_at_141();
    assert(partition_terms(146, 3) == 30778823246);
    lemma_partition_at_139();
    assert(partition_terms(146, 4) == 17167873351);
    lemma_partition_at_134();
    assert(partition_terms(146, 5) == 25316914046);
    lemma_partition_at_131();
    assert(partition_terms(146, 6) == 31281453550);
    lemma_partition_at_124();
    assert(partition_terms(146, 7) == 28439513050);
    lemma_partition_at_120();
    assert(partition_terms(146, 8) == 26595163490);
    lemma_partition_at_111();
    assert(partition_terms(146, 9) == 27275066693);
    lemma_partition_at_106();
    assert(partition_terms(146, 10) == 27659343029);
    lemma_partition_at_95();
    assert(partition_terms(146, 11) == 27554691610);
    lemma_partition_at_89();
    assert(partition_terms(146, 12) == 27504695685);
    lemma_partition_at_76();
    assert(partition_terms(146, 13) == 27513984776);
    lemma_partition_at_69();
    assert(partition_terms(146, 14) == 27517539121);
    lemma_partition_at_54();
    assert(partition_terms(146, 15) == 27517152966);
    lemma_partition_at_46();
    assert(partition_terms(146, 16) == 27517047408);
    lemma_partition_at_29();
    assert(partition_terms(146, 17) == 27517051973);
    lemma_partition_at_20();
    assert(partition_terms(146, 18) == 27517052600);
    lemma_partition_at_1();
    assert(partition_terms(146, 19) == 27517052599);
}

/// The recurrence at 147.
proof fn lemma_partition_at_147()
    ensures
        partition_number(147) == 30388671978,
{
    lemma_pentagonal_values();
    lemma_partition_terms_stable(147, 19, 147);
    assert(partition_terms(147, 0) == 0);
    lemma_partition_at_146();
    assert(partition_terms(147, 1) == 27517052599);
    lemma_partition_at_145();
    assert(partition_terms(147, 2) == 52425910608);
    lemma_partition_at_142();
    assert(partition_terms(147, 3) == 33985617288);
    lemma_partition_at_140();
    assert(partition_terms(147, 4) == 18919739153);
    lemma_partition_at_135();
    assert(partition_terms(147, 5) == 27955575229);
    lemma_partition_at_132();
    assert(partition_terms(147, 6) == 34576406118);
    lemma_partition_at_125();
    assert(partition_terms(147, 7) == 31413278766);
    lemma_partition_at_121();
    assert(partition_terms(147, 8) == 29357130715);
    lemma_partition_at_112();
    assert(partition_terms(147, 9) == 30118132871);
    lemma_partition_at_107();
    assert(partition_terms(147, 10) == 30549282260);
    lemma_partition_at_96();
    assert(partition_terms(147, 11) == 30431167956);
    lemma_partition_at_90();
    assert(partition_terms(147, 12) == 30374533783);
    lemma_partition_at_77();
    assert(partition_terms(147, 13) == 30385153646);
    lemma_partition_at_70();
    assert(partition_terms(147, 14) == 30389241614);
    lemma_partition_at_55();
    assert(partition_terms(147, 15) == 30388790338);
    lemma_partition_at_47();
    assert(partition_terms(147, 16) == 30388665584);
    lemma_partition_at_30();
    assert(partition_terms(147, 17) == 30388671188);
    lemma_partition_at_21();
    assert(partition_terms(147, 18) == 30388671980);
    lemma_partition_at_2();
    assert(partition_terms(147, 19) == 30388671978);
}

/// The recurrence at 148.
proof fn lemma_partition_at_148()
    ensures
        partition_number(148) == 33549419497,
{
    lemma_pentagonal_values();
    lemma_partition_terms_stable(148, 19, 148);
    assert(partition_terms(148, 0) == 0);
    lemma_partition_at_147();
    assert(partition_terms(148, 1) == 30388671978);
    lemma_partition_at_146();
    assert(partition_terms(148, 2) == 57905724577);
    lemma_partition_at_143();
    assert(partition_terms(148, 3) == 37514741820);
    lemma_partition_at_141();
    assert(partition_terms(148, 4) == 20844052612);
    lemma_partition_at_136();
    assert(partition_terms(148, 5) == 30859634292);
    lemma_partition_at_133();
    assert(partition_terms(148, 6) == 38206263804);
    lemma_partition_at_126();
    assert(partition_terms(148, 7) == 34687041112);
    lemma_partition_at_122();
    assert(partition_terms(148, 8) == 32395720200);
    lemma_partition_at_113();
    assert(partition_terms(148, 9) == 33247096828);
    lemma_partition_at_108();
    assert(partition_terms(148, 10) == 33730599672);
    lemma_partition_at_97();
    assert(partition_terms(148, 11) == 33597368742);
    lemma_partition_at_91();
    assert(partition_terms(148, 12) == 33533256383);
    lemma_partition_at_78();
    assert(partition_terms(148, 13) == 33545388547);
    lemma_partition_at_71();
    assert(partition_terms(148, 14) == 33550085752);
    lemma_partition_at_56();
    assert(partition_terms(148, 15) == 33549558929);
    lemma_partition_at_48();
    assert(partition_terms(148, 16) == 33549411656);
    lemma_partition_at_31();
    assert(partition_terms(148, 17) == 33549418498);
    lemma_partition_at_22();
    assert(partition_terms(148, 18) == 33549419500);
    lemma_partition_at_3();
    assert(partition_terms(148, 19) == 33549419497);
}

/// The recurrence at 149.
proof fn lemma_partition_at_149()
    ensures
        partition_number(149) == 37027355200,
{
    lemma_pentagonal_values();
    lemma_partition_terms_stable(149, 19, 149);
    assert(partition_terms(149, 0) == 0);
    lemma_partition_at_148();
    assert(partition_terms(149, 1) == 33549419497);
    lemma_partition_at_147();
    assert(partition_terms(149, 2) == 63938091475);
    lemma_partition_at_144();
    assert(partition_terms(149, 3) == 41397437030);
    lemma_partition_at_142();
    assert(partition_terms(149, 4) == 22957143710);
    lemma_partition_at_137();
    assert(partition_terms(149, 5) == 34054788726);
    lemma_partition_at_134();
    assert(partition_terms(149, 6) == 42203829421);
    lemma_partition_at_127();
    assert(partition_terms(149, 7) == 38289965126);
    lemma_partition_at_123();
    assert(partition_terms(149, 8) == 35737626885);
    lemma_partition_at_114();
    assert(partition_terms(149, 9) == 36689677550);
    lemma_partition_at_109();
    assert(partition_terms(149, 10) == 37231623790);
    lemma_partition_at_98();
    assert(partition_terms(149, 11) == 37081425654);
    lemma_partition_at_92();
    assert(partition_terms(149, 12) == 37008891847);
    lemma_partition_at_79();
    assert(partition_terms(149, 13) == 37022740497);
    lemma_partition_at_72();
    assert(partition_terms(149, 14) == 37028133280);
    lemma_partition_at_57();
    assert(partition_terms(149, 15) == 37027519126);
    lemma_partition_at_49();
    assert(partition_terms(149, 16) == 37027345601);
    lemma_partition_at_32();
    assert(partition_terms(149, 17) == 37027353950);
    lemma_partition_at_23();
    assert(partition_terms(149, 18) == 37027355205);
    lemma_partition_at_4();
    assert(partition_terms(149, 19) == 37027355200);
}

/// The recurrence at 150.
proof fn lemma_partition_at_150()
    ensures
        partition_number(150) == 40853235313,
{
    lemma_pentagonal_values();
    lemma_partition_terms_stable(150, 19, 150);
    assert(partition_terms(150, 0) == 0);
    lemma_partition_at_149();
    assert(partition_terms(150, 1) == 37027355200);
    lemma_partition_at_148();
    assert(partition_terms(150, 2) == 70576774697);
    lemma_partition_at_145();
    assert(partition_terms(150, 3) == 45667916688);
    lemma_partition_at_143();
    assert(partition_terms(150, 4) == 25276933931);
    lemma_partition_at_138();
    assert(partition_terms(150, 5) == 37569275762);
    lemma_partition_at_135();
    assert(partition_terms(150, 6) == 46605111838);
    lemma_partition_at_128();
    assert(partition_terms(150, 7) == 42254033238);
    lemma_partition_at_124();
    assert(partition_terms(150, 8) == 39412092738);
    lemma_partition_at_115();
    assert(partition_terms(150, 9) == 40476237189);
    lemma_partition_at_110();
    assert(partition_terms(150, 10) == 41083400935);
    lemma_partition_at_99();
    assert(partition_terms(150, 11) == 40914171060);
    lemma_partition_at_93();
    assert(partition_terms(150, 12) == 40832160883);
    lemma_partition_at_80();
    assert(partition_terms(150, 13) == 40847957359);
    lemma_partition_at_73();
    assert(partition_terms(150, 14) == 40854143048);
    lemma_partition_at_58();
    assert(partition_terms(150, 15) == 40853427828);
    lemma_partition_at_50();
    assert(partition_terms(150, 16) == 40853223602);
    lemma_partition_at_33();
    assert(partition_terms(150, 17) == 40853233745);
    lemma_partition_at_24();
    assert(partition_terms(150, 18) == 40853235320);
    lemma_partition_at_5();
    assert(partition_terms(150, 19) == 40853235313);
}

/// The recurrence at 151.
proof fn lemma_partition_at_151()
    ensures
        partition_number(151) == 45060624582,
{
    lemma_pentagonal_values();
    lemma_partition_terms_stable(151, 19, 151);
    assert(partition_terms(151, 0) == 0);
    lemma_partition_at_150();
    assert(partition_terms(151, 1) == 40853235313);
    lemma_partition_at_149();
    assert(partition_terms(151, 2) == 77880590513);
    lemma_partition_at_146();
    assert(partition_terms(151, 3) == 50363537914);
    lemma_partition_at_144();
    assert(partition_terms(151, 4) == 27822883469);
    lemma_partition_at_139();
    assert(partition_terms(151, 5) == 41433833364);
    lemma_partition_at_136();
    assert(partition_terms(151, 6) == 51449415044);
    lemma_partition_at_129();
    assert(partition_terms(151, 7) == 46614143174);
    lemma_partition_at_125();
    assert(partition_terms(151, 8) == 43451015822);
    lemma_partition_at_116();
    assert(partition_terms(151, 9) == 44639924070);
    lemma_partition_at_111();
    assert(partition_terms(151, 10) == 45319827273);
    lemma_partition_at_100();
    assert(partition_terms(151, 11) == 45129257981);
    lemma_partition_at_94();
    assert(partition_terms(151, 12) == 45036588261);
    lemma_partition_at_81();
    assert(partition_terms(151, 13) == 45054592588);
    lemma_partition_at_74();
    assert(partition_terms(151, 14) == 45061682088);
    lemma_partition_at_59();
    assert(partition_terms(151, 15) == 45060850268);
    lemma_partition_at_51();
    assert(partition_terms(151, 16) == 45060610325);
    lemma_partition_at_34();
    assert(partition_terms(151, 17) == 45060622635);
    lemma_partition_at_25();
    assert(partition_terms(151, 18) == 45060624593);
    lemma_partition_at_6();
    assert(partition_terms(151, 19) == 45060624582);
}

/// The recurrence at 152.
proof fn lemma_partition_at_152()
    ensures
        partition_number(152) == 49686288421,
{
    lemma_pentagonal_values();
    lemma_partition_terms_stable(152, 19, 152);
    assert(partition_terms(152, 0) == 0);
    lemma_partition_at_151();
    assert(partition_terms(152, 1) == 45060624582);
    lemma_partition_at_150();
    assert(partition_terms(152, 2) == 85913859895);
    lemma_partition_at_147();
    assert(partition_terms(152, 3) == 55525187917);
    lemma_partition_at_145();
    assert(partition_terms(152, 4) == 30616329908);
    lemma_partition_at_140();
    assert(partition_terms(152, 5) == 45682208043);
    lemma_partition_at_137();
    assert(partition_terms(152, 6) == 56779853059);
    lemma_partition_at_130();
    assert(partition_terms(152, 7) == 51408537659);
    lemma_partition_at_126();
    assert(partition_terms(152, 8) == 47889314967);
    lemma_partition_at_117();
    assert(partition_terms(152, 9) == 49217025043);
    lemma_partition_at_112();
    assert(partition_terms(152, 10) == 49978027199);
    lemma_partition_at_101();
    assert(partition_terms(152, 11) == 49763546073);
    lemma_partition_at_95();
    assert(partition_terms(152, 12) == 49658894654);
    lemma_partition_at_82();
    assert(partition_terms(152, 13) == 49679400909);
    lemma_partition_at_75();
    assert(partition_terms(152, 14) == 49687519173);
    lemma_partition_at_60();
    assert(partition_terms(152, 15) == 49686552706);
    lemma_partition_at_52();
    assert(partition_terms(152, 16) == 49686271117);
    lemma_partition_at_35();
    assert(partition_terms(152, 17) == 49686286000);
    lemma_partition_at_26();
    assert(partition_terms(152, 18) == 49686288436);
    lemma_partition_at_7();
    assert(partition_terms(152, 19) == 49686288421);
}

/// The recurrence at 153.
proof fn lemma_partition_at_153()
    ensures
        partition_number(153) == 54770336324,
{
    lemma_pentagonal_values();
    lemma_partition_terms_stable(153, 19, 153);
    assert(partition_terms(153, 0) == 0);
    lemma_partition_at_152();
    assert(partition_terms(153, 1) == 49686288421);
    lemma_partition_at_151();
    assert(partition_terms(153, 2) == 94746913003);
    lemma_partition_at_148();
    assert(partition_terms(153, 3) == 61197493506);
    lemma_partition_at_146();
    assert(partition_terms(153, 4) == 33680440907);
    lemma_partition_at_141();
    assert(partition_terms(153, 5) == 50351130115);
    lemma_partition_at_138();
    assert(partition_terms(153, 6) == 62643471946);
    lemma_partition_at_131();
    assert(partition_terms(153, 7) == 56678932442);
    lemma_partition_at_127();
    assert(partition_terms(153, 8) == 52765068147);
    lemma_partition_at_118();
    assert(partition_terms(153, 9) == 54247142290);
    lemma_partition_at_113();
    assert(partition_terms(153, 10) == 55098518918);
    lemma_partition_at_102();
    assert(partition_terms(153, 11) == 54857253539);
    lemma_partition_at_96();
    assert(partition_terms(153, 12) == 54739139235);
    lemma_partition_at_83();
    assert(partition_terms(153, 13) == 54762477704);
    lemma_partition_at_76();
    assert(partition_terms(153, 14) == 54771766795);
    lemma_partition_at_61();
    assert(partition_terms(153, 15) == 54770645290);
    lemma_partition_at_53();
    assert(partition_terms(153, 16) == 54770315359);
    lemma_partition_at_36();
    assert(partition_terms(153, 17) == 54770333336);
    lemma_partition_at_27();
    assert(partition_terms(153, 18) == 54770336346);
    lemma_partition_at_8();
    assert(partition_terms(153, 19) == 54770336324);
}

/// The recurrence at 154.
proof fn lemma_partition_at_154()
    ensures
        partition_number(154) == 60356673280,
{
    lemma_pentagonal_values();
    lemma_partition_terms_stable(154, 19, 154);
    assert(partition_terms(154, 0) == 0);
    lemma_partition_at_153();
    assert(partition_terms(154, 1) == 54770336324);
    lemma_partition_at_152();
    assert(partition_terms(154, 2) == 104456624745);
    lemma_partition_at_149();
    assert(partition_terms(154, 3) == 67429269545);
    lemma_partition_at_147();
    assert(partition_terms(154, 4) == 37040597567);
    lemma_partition_at_142();
    assert(partition_terms(154, 5) == 55480890887);
    lemma_partition_at_139();
    assert(partition_terms(154, 6) == 69091840782);
    lemma_partition_at_132();
    assert(partition_terms(154, 7) == 62471009893);
    lemma_partition_at_128();
    assert(partition_terms(154, 8) == 58119931293);
    lemma_partition_at_119();
    assert(partition_terms(154, 9) == 59773599958);
    lemma_partition_at_114();
    assert(partition_terms(154, 10) == 60725650623);
    lemma_partition_at_103();
    assert(partition_terms(154, 11) == 60454401673);
    lemma_partition_at_97();
    assert(partition_terms(154, 12) == 60321170743);
    lemma_partition_at_84();
    assert(partition_terms(154, 13) == 60347714403);
    lemma_partition_at_77();
    assert(partition_terms(154, 14) == 60358334266);
    lemma_partition_at_62();
    assert(partition_terms(154, 15) == 60357034110);
    lemma_partition_at_54();
    assert(partition_terms(154, 16) == 60356647955);
    lemma_partition_at_37();
    assert(partition_terms(154, 17) == 60356669592);
    lemma_partition_at_28();
    assert(partition_terms(154, 18) == 60356673310);
    lemma_partition_at_9();
    assert(partition_terms(154, 19) == 60356673280);
}

/// The recurrence at 155.
proof fn lemma_partition_at_155()
    ensures
        partition_number(155) == 66493182097,
{
    lemma_pentagonal_values();
    lemma_partition_terms_stable(155, 20, 155);
    assert(partition_terms(155, 0) == 0);
    lemma_partition_at_154();
    assert(partition_terms(155, 1) == 60356673280);
    lemma_partition_at_153();
    assert(partition_terms(155, 2) == 115127009604);
    lemma_partition_at_150();
    assert(partition_terms(155, 3) == 74273774291);
    lemma_partition_at_148();
    assert(partition_terms(155, 4) == 40724354794);
    lemma_partition_at_143();
    assert(partition_terms(155, 5) == 61115337551);
    lemma_partition_at_140();
    assert(partition_terms(155, 6) == 76181215686);
    lemma_partition_at_133();
    assert(partition_terms(155, 7) == 68834586174);
    lemma_partition_at_129();
    assert(partition_terms(155, 8) == 63999314304);
    lemma_partition_at_120();
    assert(partition_terms(155, 9) == 65843663864);
    lemma_partition_at_115();
    assert(partition_terms(155, 10) == 66907808315);
    lemma_partition_at_104();
    assert(partition_terms(155, 11) == 66603006950);
    lemma_partition_at_98();
    assert(partition_terms(155, 12) == 66452808814);
    lemma_partition_at_85();
    assert(partition_terms(155, 13) == 66482976171);
    lemma_partition_at_78();
    assert(partition_terms(155, 14) == 66495108335);
    lemma_partition_at_63();
    assert(partition_terms(155, 15) == 66493602836);
    lemma_partition_at_55();
    assert(partition_terms(155, 16) == 66493151560);
    lemma_partition_at_38();
    assert(partition_terms(155, 17) == 66493177575);
    lemma_partition_at_29();
    assert(partition_terms(155, 18) == 66493182140);
    lemma_partition_at_10();
    assert(partition_terms(155, 19) == 66493182098);
    lemma_partition_at_0();
    assert(partition_terms(155, 20) == 66493182097);
}

/// The recurrence at 156.
proof fn lemma_partition_at_156()
    ensures
        partition_number(156) == 73232243759,
{
    lemma_pentagonal_values();
    lemma_partition_terms_stable(156, 20, 156);
    assert(partition_terms(156, 0) == 0);
    lemma_partition_at_155();
    assert(partition_terms(156, 1) == 66493182097);
    lemma_partition_at_154();
    assert(partition_terms(156, 2) == 126849855377);
    lemma_partition_at_151();
    assert(partition_terms(156, 3) == 81789230795);
    lemma_partition_at_149();
    assert(partition_terms(156, 4) == 44761875595);
    lemma_partition_at_144();
    assert(partition_terms(156, 5) == 67302530040);
    lemma_partition_at_141();
    assert(partition_terms(156, 6) == 83973219248);
    lemma_partition_at_134();
    assert(partition_terms(156, 7) == 75824178553);
    lemma_partition_at_130();
    assert(partition_terms(156, 8) == 70452863153);
    lemma_partition_at_121();
    assert(partition_terms(156, 9) == 72509011204);
    lemma_partition_at_116();
    assert(partition_terms(156, 10) == 73697919452);
    lemma_partition_at_105();
    assert(partition_terms(156, 11) == 73355593743);
    lemma_partition_at_99();
    assert(partition_terms(156, 12) == 73186363868);
    lemma_partition_at_86();
    assert(partition_terms(156, 13) == 73220626830);
    lemma_partition_at_79();
    assert(partition_terms(156, 14) == 73234475480);
    lemma_partition_at_64();
    assert(partition_terms(156, 15) == 73232733850);
    lemma_partition_at_56();
    assert(partition_terms(156, 16) == 73232207027);
    lemma_partition_at_39();
    assert(partition_terms(156, 17) == 73232238212);
    lemma_partition_at_30();
    assert(partition_terms(156, 18) == 73232243816);
    lemma_partition_at_11();
    assert(partition_terms(156, 19) == 73232243760);
    lemma_partition_at_1();
    assert(partition_terms(156, 20) == 73232243759);
}

/// The recurrence at 157.
proof fn lemma_partition_at_157()
    ensures
        partition_number(157) == 80630964769,
{
    lemma_pentagonal_values();
    lemma_partition_terms_stable(157, 20, 157);
    assert(partition_terms(157, 0) == 0);
    lemma_partition_at_156();
    assert(partition_terms(157, 1) == 73232243759);
    lemma_partition_at_155();
    assert(partition_terms(157, 2) == 139725425856);
    lemma_partition_at_152();
    assert(partition_terms(157, 3) == 90039137435);
    lemma_partition_at_150();
    assert(partition_terms(157, 4) == 49185902122);
    lemma_partition_at_145();
    assert(partition_terms(157, 5) == 74094760131);
    lemma_partition_at_142();
    assert(partition_terms(157, 6) == 92535053451);
    lemma_partition_at_135();
    assert(partition_terms(157, 7) == 83499217375);
    lemma_partition_at_131();
    assert(partition_terms(157, 8) == 77534677871);
    lemma_partition_at_122();
    assert(partition_terms(157, 9) == 79825998783);
    lemma_partition_at_117();
    assert(partition_terms(157, 10) == 81153708859);
    lemma_partition_at_106();
    assert(partition_terms(157, 11) == 80769432523);
    lemma_partition_at_100();
    assert(partition_terms(157, 12) == 80578863231);
    lemma_partition_at_87();
    assert(partition_terms(157, 13) == 80617750904);
    lemma_partition_at_80();
    assert(partition_terms(157, 14) == 80633547380);
    lemma_partition_at_65();
    assert(partition_terms(157, 15) == 80631534822);
    lemma_partition_at_57();
    assert(partition_terms(157, 16) == 80630920668);
    lemma_partition_at_40();
    assert(partition_terms(157, 17) == 80630958006);
    lemma_partition_at_31();
    assert(partition_terms(157, 18) == 80630964848);
    lemma_partition_at_12();
    assert(partition_terms(157, 19) == 80630964771);
    lemma_partition_at_2();
    assert(partition_terms(157, 20) == 80630964769);
}

/// The recurrence at 158.
proof fn lemma_partition_at_158()
    ensures
        partition_number(158) == 88751778802,
{
    lemma_pentagonal_values();
    lemma_partition_terms_stable(158, 20, 158);
    assert(partition_terms(158, 0) == 0);
    lemma_partition_at_157();
    assert(partition_terms(158, 1) == 80630964769);
    lemma_partition_at_156();
    assert(partition_terms(158, 2) == 153863208528);
    lemma_partition_at_153();
    assert(partition_terms(158, 3) == 99092872204);
    lemma_partition_at_151();
    assert(partition_terms(158, 4) == 54032247622);
    lemma_partition_at_146();
    assert(partition_terms(158, 5) == 81549300221);
    lemma_partition_at_143();
    assert(partition_terms(158, 6) == 101940282978);
    lemma_partition_at_136();
    assert(partition_terms(158, 7) == 91924701298);
    lemma_partition_at_132();
    assert(partition_terms(158, 8) == 85303870409);
    lemma_partition_at_123();
    assert(partition_terms(158, 9) == 87856208650);
    lemma_partition_at_118();
    assert(partition_terms(158, 10) == 89338282793);
    lemma_partition_at_107();
    assert(partition_terms(158, 11) == 88907133404);
    lemma_partition_at_101();
    assert(partition_terms(158, 12) == 88692652278);
    lemma_partition_at_88();
    assert(partition_terms(158, 13) == 88736760387);
    lemma_partition_at_81();
    assert(partition_terms(158, 14) == 88754764714);
    lemma_partition_at_66();
    assert(partition_terms(158, 15) == 88752441194);
    lemma_partition_at_58();
    assert(partition_terms(158, 16) == 88751725974);
    lemma_partition_at_41();
    assert(partition_terms(158, 17) == 88751770557);
    lemma_partition_at_32();
    assert(partition_terms(158, 18) == 88751778906);
    lemma_partition_at_13();
    assert(partition_terms(158, 19) == 88751778805);
    lemma_partition_at_3();
    assert(partition_terms(158, 20) == 88751778802);
}

/// The recurrence at 159.
proof fn lemma_partition_at_159()
    ensures
        partition_number(159) == 97662728555,
{
    lemma_pentagonal_values();
    lemma_partition_terms_stable(159, 20, 159);
    assert(partition_terms(159, 0) == 0);
    lemma_partition_at_158();
    assert(partition_terms(159, 1) == 88751778802);
    lemma_partition_at_157();
    assert(partition_terms(159, 2) == 169382743571);
    lemma_partition_at_154();
    assert(partition_terms(159, 3) == 109026070291);
    lemma_partition_at_152();
    assert(partition_terms(159, 4) == 59339781870);
    lemma_partition_at_147();
    assert(partition_terms(159, 5) == 89728453848);
    lemma_partition_at_144();
    assert(partition_terms(159, 6) == 112269108293);
    lemma_partition_at_137();
    assert(partition_terms(159, 7) == 101171463277);
    lemma_partition_at_133();
    assert(partition_terms(159, 8) == 93824833765);
    lemma_partition_at_124();
    assert(partition_terms(159, 9) == 96666774265);
    lemma_partition_at_119();
    assert(partition_terms(159, 10) == 98320442930);
    lemma_partition_at_108();
    assert(partition_terms(159, 11) == 97836940086);
    lemma_partition_at_102();
    assert(partition_terms(159, 12) == 97595674707);
    lemma_partition_at_89();
    assert(partition_terms(159, 13) == 97645670632);
    lemma_partition_at_82();
    assert(partition_terms(159, 14) == 97666176887);
    lemma_partition_at_67();
    assert(partition_terms(159, 15) == 97663497198);
    lemma_partition_at_59();
    assert(partition_terms(159, 16) == 97662665378);
    lemma_partition_at_42();
    assert(partition_terms(159, 17) == 97662718552);
    lemma_partition_at_33();
    assert(partition_terms(159, 18) == 97662728695);
    lemma_partition_at_14();
    assert(partition_terms(159, 19) == 97662728560);
    lemma_partition_at_4();
    assert(partition_terms(159, 20) == 97662728555);
}

/// The recurrence at 160.
proof fn lemma_partition_at_160()
    ensures
        partition_number(160) == 107438159466,
{
    lemma_pentagonal_values();
    lemma_partition_terms_stable(160, 20, 160);
    assert(partition_terms(160, 0) == 0);
    lemma_partition_at_159();
    assert(partition_terms(160, 1) == 97662728555);
    lemma_partition_at_158();
    assert(partition_terms(160, 2) == 186414507357);
    lemma_partition_at_155();
    assert(partition_terms(160, 3) == 119921325260);
    lemma_partition_at_153();
    assert(partition_terms(160, 4) == 65150988936);
    lemma_partition_at_148();
    assert(partition_terms(160, 5) == 98700408433);
    lemma_partition_at_145();
    assert(partition_terms(160, 6) == 123609266442);
    lemma_partition_at_138();
    assert(partition_terms(160, 7) == 111316924611);
    lemma_partition_at_134();
    assert(partition_terms(160, 8) == 103167883916);
    lemma_partition_at_125();
    assert(partition_terms(160, 9) == 106331011268);
    lemma_partition_at_120();
    assert(partition_terms(160, 10) == 108175360828);
    lemma_partition_at_109();
    assert(partition_terms(160, 11) == 107633414588);
    lemma_partition_at_103();
    assert(partition_terms(160, 12) == 107362165638);
    lemma_partition_at_90();
    assert(partition_terms(160, 13) == 107418799811);
    lemma_partition_at_83();
    assert(partition_terms(160, 14) == 107442138280);
    lemma_partition_at_68();
    assert(partition_terms(160, 15) == 107439050545);
    lemma_partition_at_60();
    assert(partition_terms(160, 16) == 107438084078);
    lemma_partition_at_43();
    assert(partition_terms(160, 17) == 107438147339);
    lemma_partition_at_34();
    assert(partition_terms(160, 18) == 107438159649);
    lemma_partition_at_15();
    assert(partition_terms(160, 19) == 107438159473);
    lemma_partition_at_5();
    assert(partition_terms(160, 20) == 107438159466);
}

/// The recurrence at 161.
proof fn lemma_partition_at_161()
    ensures
        partition_number(161) == 118159068427,
{
    lemma_pentagonal_values();
    lemma_partition_terms_stable(161, 20, 161);
    assert(partition_terms(161, 0) == 0);
    lemma_partition_at_160();
    assert(partition_terms(161, 1) == 107438159466);
    lemma_partition_at_159();
    assert(partition_terms(161, 2) == 205100888021);
    lemma_partition_at_156();
    assert(partition_terms(161, 3) == 131868644262);
    lemma_partition_at_154();
    assert(partition_terms(161, 4) == 71511970982);
    lemma_partition_at_149();
    assert(partition_terms(161, 5) == 108539326182);
    lemma_partition_at_146();
    assert(partition_terms(161, 6) == 136056378781);
    lemma_partition_at_139();
    assert(partition_terms(161, 7) == 122445428886);
    lemma_partition_at_135();
    assert(partition_terms(161, 8) == 113409592810);
    lemma_partition_at_126();
    assert(partition_terms(161, 9) == 116928815502);
    lemma_partition_at_121();
    assert(partition_terms(161, 10) == 118984963553);
    lemma_partition_at_110();
    assert(partition_terms(161, 11) == 118377799807);
    lemma_partition_at_104();
    assert(partition_terms(161, 12) == 118072998442);
    lemma_partition_at_91();
    assert(partition_terms(161, 13) == 118137110801);
    lemma_partition_at_84();
    assert(partition_terms(161, 14) == 118163654461);
    lemma_partition_at_69();
    assert(partition_terms(161, 15) == 118160100116);
    lemma_partition_at_61();
    assert(partition_terms(161, 16) == 118158978611);
    lemma_partition_at_44();
    assert(partition_terms(161, 17) == 118159053786);
    lemma_partition_at_35();
    assert(partition_terms(161, 18) == 118159068669);
    lemma_partition_at_16();
    assert(partition_terms(161, 19) == 118159068438);
    lemma_partition_at_6();
    assert(partition_terms(161, 20) == 118159068427);
}

/// The recurrence at 162.
proof fn lemma_partition_at_162()
    ensures
        partition_number(162) == 129913904637,
{
    lemma_pentagonal_values();
    lemma_partition_terms_stable(162, 20, 162);
    assert(partition_terms(162, 0) == 0);
    lemma_partition_at_161();
    assert(partition_terms(162, 1) == 118159068427);
    lemma_partition_at_160();
    assert(partition_terms(162, 2) == 225597227893);
    lemma_partition_at_157();
    assert(partition_terms(162, 3) == 144966263124);
    lemma_partition_at_155();
    assert(partition_terms(162, 4) == 78473081027);
    lemma_partition_at_150();
    assert(partition_terms(162, 5) == 119326316340);
    lemma_partition_at_147();
    assert(partition_terms(162, 6) == 149714988318);
    lemma_partition_at_140();
    assert(partition_terms(162, 7) == 134649110183);
    lemma_partition_at_136();
    assert(partition_terms(162, 8) == 124633528503);
    lemma_partition_at_127();
    assert(partition_terms(162, 9) == 128547392798);
    lemma_partition_at_122();
    assert(partition_terms(162, 10) == 130838713710);
    lemma_partition_at_111();
    assert(partition_terms(162, 11) == 130158810507);
    lemma_partition_at_105();
    assert(partition_terms(162, 12) == 129816484798);
    lemma_partition_at_92();
    assert(partition_terms(162, 13) == 129889018605);
    lemma_partition_at_85();
    assert(partition_terms(162, 14) == 129919185962);
    lemma_partition_at_70();
    assert(partition_terms(162, 15) == 129915097994);
    lemma_partition_at_62();
    assert(partition_terms(162, 16) == 129913797838);
    lemma_partition_at_45();
    assert(partition_terms(162, 17) == 129913886972);
    lemma_partition_at_36();
    assert(partition_terms(162, 18) == 129913904949);
    lemma_partition_at_17();
    assert(partition_terms(162, 19) == 129913904652);
    lemma_partition_at_7();
    assert(partition_terms(162, 20) == 129913904637);
}

/// The recurrence at 163.
proof fn lemma_partition_at_163()
    ensures
        partition_number(163) == 142798995930,
{
    lemma_pentagonal_values();
    lemma_partition_terms_stable(163, 20, 163);
    assert(partition_terms(163, 0) == 0);
    lemma_partition_at_162();
    assert(partition_terms(163, 1) == 129913904637);
    lemma_partition_at_161();
    assert(partition_terms(163, 2) == 248072973064);
    lemma_partition_at_158();
    assert(partition_terms(163, 3) == 159321194262);
    lemma_partition_at_156();
    assert(partition_terms(163, 4) == 86088950503);
    lemma_partition_at_151();
    assert(partition_terms(163, 5) == 131149575085);
    lemma_partition_at_148();
    assert(partition_terms(163, 6) == 164698994582);
    lemma_partition_at_141();
    assert(partition_terms(163, 7) == 148028305374);
    lemma_partition_at_137();
    assert(partition_terms(163, 8) == 136930660358);
    lemma_partition_at_128();
    assert(partition_terms(163, 9) == 141281738958);
    lemma_partition_at_123();
    assert(partition_terms(163, 10) == 143834077199);
    lemma_partition_at_112();
    assert(partition_terms(163, 11) == 143073075043);
    lemma_partition_at_106();
    assert(partition_terms(163, 12) == 142688798707);
    lemma_partition_at_93();
    assert(partition_terms(163, 13) == 142770808884);
    lemma_partition_at_86();
    assert(partition_terms(163, 14) == 142805071846);
    lemma_partition_at_71();
    assert(partition_terms(163, 15) == 142800374641);
    lemma_partition_at_63();
    assert(partition_terms(163, 16) == 142798869142);
    lemma_partition_at_46();
    assert(partition_terms(163, 17) == 142798974700);
    lemma_partition_at_37();
    assert(partition_terms(163, 18) == 142798996337);
    lemma_partition_at_18();
    assert(partition_terms(163, 19) == 142798995952);
    lemma_partition_at_8();
    assert(partition_terms(163, 20) == 142798995930);
}

/// The recurrence at 164.
proof fn lemma_partition_at_164()
    ensures
        partition_number(164) == 156919475295,
{
    lemma_pentagonal_values();
    lemma_partition_terms_stable(164, 20, 164);
    assert(partition_terms(164, 0) == 0);
    lemma_partition_at_163();
    assert(partition_terms(164, 1) == 142798995930);
    lemma_partition_at_162();
    assert(partition_terms(164, 2) == 272712900567);
    lemma_partition_at_159();
    assert(partition_terms(164, 3) == 175050172012);
    lemma_partition_at_157();
    assert(partition_terms(164, 4) == 94419207243);
    lemma_partition_at_152();
    assert(partition_terms(164, 5) == 144105495664);
    lemma_partition_at_149();
    assert(partition_terms(164, 6) == 181132850864);
    lemma_partition_at_142();
    assert(partition_terms(164, 7) == 162692557544);
    lemma_partition_at_138();
    assert(partition_terms(164, 8) == 150400215713);
    lemma_partition_at_129();
    assert(partition_terms(164, 9) == 155235487583);
    lemma_partition_at_124();
    assert(partition_terms(164, 10) == 158077428083);
    lemma_partition_at_113();
    assert(partition_terms(164, 11) == 157226051455);
    lemma_partition_at_107();
    assert(partition_terms(164, 12) == 156794902066);
    lemma_partition_at_94();
    assert(partition_terms(164, 13) == 156887571786);
    lemma_partition_at_87();
    assert(partition_terms(164, 14) == 156926459459);
    lemma_partition_at_72();
    assert(partition_terms(164, 15) == 156921066676);
    lemma_partition_at_64();
    assert(partition_terms(164, 16) == 156919325046);
    lemma_partition_at_47();
    assert(partition_terms(164, 17) == 156919449800);
    lemma_partition_at_38();
    assert(partition_terms(164, 18) == 156919475815);
    lemma_partition_at_19();
    assert(partition_terms(164, 19) == 156919475325);
    lemma_partition_at_9();
    assert(partition_terms(164, 20) == 156919475295);
}

/// The recurrence at 165.
proof fn lemma_partition_at_165()
    ensures
        partition_number(165) == 172389800255,
{
    lemma_pentagonal_values();
    lemma_partition_terms_stable(165, 20, 165);
    assert(partition_terms(165, 0) == 0);
    lemma_partition_at_164();
    assert(partition_terms(165, 1) == 156919475295);
    lemma_partition_at_163();
    assert(partition_terms(165, 2) == 299718471225);
    lemma_partition_at_160();
    assert(partition_terms(165, 3) == 192280311759);
    lemma_partition_at_158();
    assert(partition_terms(165, 4) == 103528532957);
    lemma_partition_at_153();
    assert(partition_terms(165, 5) == 158298869281);
    lemma_partition_at_150();
    assert(partition_terms(165, 6) == 199152104594);
    lemma_partition_at_143();
    assert(partition_terms(165, 7) == 178761121837);
    lemma_partition_at_139();
    assert(partition_terms(165, 8) == 165150171942);
    lemma_partition_at_130();
    assert(partition_terms(165, 9) == 170521487342);
    lemma_partition_at_125();
    assert(partition_terms(165, 10) == 173684614694);
    lemma_partition_at_114();
    assert(partition_terms(165, 11) == 172732564029);
    lemma_partition_at_108();
    assert(partition_terms(165, 12) == 172249061185);
    lemma_partition_at_95();
    assert(partition_terms(165, 13) == 172353712604);
    lemma_partition_at_88();
    assert(partition_terms(165, 14) == 172397820713);
    lemma_partition_at_73();
    assert(partition_terms(165, 15) == 172391635024);
    lemma_partition_at_65();
    assert(partition_terms(165, 16) == 172389622466);
    lemma_partition_at_48();
    assert(partition_terms(165, 17) == 172389769739);
    lemma_partition_at_39();
    assert(partition_terms(165, 18) == 172389800924);
    lemma_partition_at_20();
    assert(partition_terms(165, 19) == 172389800297);
    lemma_partition_at_10();
    assert(partition_terms(165, 20) == 172389800255);
}

/// The recurrence at 166.
proof fn lemma_partition_at_166()
    ensures
        partition_number(166) == 189334822579,
{
    lemma_pentagonal_values();
    lemma_partition_terms_stable(166, 20, 166);
    assert(partition_terms(166, 0) == 0);
    lemma_partition_at_165();
    assert(partition_terms(166, 1) == 172389800255);
    lemma_partition_at_164();
    assert(partition_terms(166, 2) == 329309275550);
    lemma_partition_at_161();
    assert(partition_terms(166, 3) == 211150207123);
    lemma_partition_at_159();
    assert(partition_terms(166, 4) == 113487478568);
    lemma_partition_at_154();
    assert(partition_terms(166, 5) == 173844151848);
    lemma_partition_at_151();
    assert(partition_terms(166, 6) == 218904776430);
    lemma_partition_at_144();
    assert(partition_terms(166, 7) == 196364121985);
    lemma_partition_at_140();
    assert(partition_terms(166, 8) == 181298243850);
    lemma_partition_at_131();
    assert(partition_terms(166, 9) == 187262783354);
    lemma_partition_at_126();
    assert(partition_terms(166, 10) == 190782006046);
    lemma_partition_at_115();
    assert(partition_terms(166, 11) == 189717861595);
    lemma_partition_at_109();
    assert(partition_terms(166, 12) == 189175915355);
    lemma_partition_at_96();
    assert(partition_terms(166, 13) == 189294029659);
    lemma_partition_at_89();
    assert(partition_terms(166, 14) == 189344025584);
    lemma_partition_at_74();
    assert(partition_terms(166, 15) == 189336936084);
    lemma_partition_at_66();
    assert(partition_terms(166, 16) == 189334612564);
    lemma_partition_at_49();
    assert(partition_terms(166, 17) == 189334786089);
    lemma_partition_at_40();
    assert(partition_terms(166, 18) == 189334823427);
    lemma_partition_at_21();
    assert(partition_terms(166, 19) == 189334822635);
    lemma_partition_at_11();
    assert(partition_terms(166, 20) == 189334822579);
}

/// The recurrence at 167.
proof fn lemma_partition_at_167()
    ensures
        partition_number(167) == 207890420102,
{
    lemma_pentagonal_values();
    lemma_partition_terms_stable(167, 20, 167);
    assert(partition_terms(167, 0) == 0);
    lemma_partition_at_166();
    assert(partition_terms(167, 1) == 189334822579);
    lemma_partition_at_165();
    assert(partition_terms(167, 2) == 361724622834);
    lemma_partition_at_162();
    assert(partition_terms(167, 3) == 231810718197);
    lemma_partition_at_160();
    assert(partition_terms(167, 4) == 124372558731);
    lemma_partition_at_155();
    assert(partition_terms(167, 5) == 190865740828);
    lemma_partition_at_152();
    assert(partition_terms(167, 6) == 240552029249);
    lemma_partition_at_145();
    assert(partition_terms(167, 7) == 215643171240);
    lemma_partition_at_141();
    assert(partition_terms(167, 8) == 198972482032);
    lemma_partition_at_132();
    assert(partition_terms(167, 9) == 205593312921);
    lemma_partition_at_127();
    assert(partition_terms(167, 10) == 209507177216);
    lemma_partition_at_116();
    assert(partition_terms(167, 11) == 208318268968);
    lemma_partition_at_110();
    assert(partition_terms(167, 12) == 207711105222);
    lemma_partition_at_97();
    assert(partition_terms(167, 13) == 207844336152);
    lemma_partition_at_90();
    assert(partition_terms(167, 14) == 207900970325);
    lemma_partition_at_75();
    assert(partition_terms(167, 15) == 207892852061);
    lemma_partition_at_67();
    assert(partition_terms(167, 16) == 207890172372);
    lemma_partition_at_50();
    assert(partition_terms(167, 17) == 207890376598);
    lemma_partition_at_41();
    assert(partition_terms(167, 18) == 207890421181);
    lemma_partition_at_22();
    assert(partition_terms(167, 19) == 207890420179);
    lemma_partition_at_12();
    assert(partition_terms(167, 20) == 207890420102);
}

/// The recurrence at 168.
proof fn lemma_partition_at_168()
    ensures
        partition_number(168) == 228204732751,
{
    lemma_pentagonal_values();
    lemma_partition_terms_stable(168, 20, 168);
    assert(partition_terms(168, 0) == 0);
    lemma_partition_at_167();
    assert(partition_terms(168, 1) == 207890420102);
    lemma_partition_at_166();
    assert(partition_terms(168, 2) == 397225242681);
    lemma_partition_at_163();
    assert(partition_terms(168, 3) == 254426246751);
    lemma_partition_at_161();
    assert(partition_terms(168, 4) == 136267178324);
    lemma_partition_at_156();
    assert(partition_terms(168, 5) == 209499422083);
    lemma_partition_at_153();
    assert(partition_terms(168, 6) == 264269758407);
    lemma_partition_at_146();
    assert(partition_terms(168, 7) == 236752705808);
    lemma_partition_at_142();
    assert(partition_terms(168, 8) == 218312412488);
    lemma_partition_at_133();
    assert(partition_terms(168, 9) == 225659042000);
    lemma_partition_at_128();
    assert(partition_terms(168, 10) == 230010120600);
    lemma_partition_at_117();
    assert(partition_terms(168, 11) == 228682410524);
    lemma_partition_at_111();
    assert(partition_terms(168, 12) == 228002507321);
    lemma_partition_at_98();
    assert(partition_terms(168, 13) == 228152705457);
    lemma_partition_at_91();
    assert(partition_terms(168, 14) == 228216817816);
    lemma_partition_at_76();
    assert(partition_terms(168, 15) == 228207528725);
    lemma_partition_at_68();
    assert(partition_terms(168, 16) == 228204440990);
    lemma_partition_at_51();
    assert(partition_terms(168, 17) == 228204680933);
    lemma_partition_at_42();
    assert(partition_terms(168, 18) == 228204734107);
    lemma_partition_at_23();
    assert(partition_terms(168, 19) == 228204732852);
    lemma_partition_at_13();
    assert(partition_terms(168, 20) == 228204732751);
}

/// The recurrence at 169.
proof fn lemma_partition_at_169()
    ensures
        partition_number(169) == 250438925115,
{
    lemma_pentagonal_values();
    lemma_partition_terms_stable(169, 20, 169);
    assert(partition_terms(169, 0) == 0);
    lemma_partition_at_168();
    assert(partition_terms(169, 1) == 228204732751);
    lemma_partition_at_167();
    assert(partition_terms(169, 2) == 436095152853);
    lemma_partition_at_164();
    assert(partition_terms(169, 3) == 279175677558);
    lemma_partition_at_162();
    assert(partition_terms(169, 4) == 149261772921);
    lemma_partition_at_157();
    assert(partition_terms(169, 5) == 229892737690);
    lemma_partition_at_154();
    assert(partition_terms(169, 6) == 290249410970);
    lemma_partition_at_147();
    assert(partition_terms(169, 7) == 259860738992);
    lemma_partition_at_143();
    assert(partition_terms(169, 8) == 239469756235);
    lemma_partition_at_134();
    assert(partition_terms(169, 9) == 247618796930);
    lemma_partition_at_129();
    assert(partition_terms(169, 10) == 252454068800);
    lemma_partition_at_118();
    assert(partition_terms(169, 11) == 250971994657);
    lemma_partition_at_112();
    assert(partition_terms(169, 12) == 250210992501);
    lemma_partition_at_99();
    assert(partition_terms(169, 13) == 250380222376);
    lemma_partition_at_92();
    assert(partition_terms(169, 14) == 250452756183);
    lemma_partition_at_77();
    assert(partition_terms(169, 15) == 250442136320);
    lemma_partition_at_69();
    assert(partition_terms(169, 16) == 250438581975);
    lemma_partition_at_52();
    assert(partition_terms(169, 17) == 250438863564);
    lemma_partition_at_43();
    assert(partition_terms(169, 18) == 250438926825);
    lemma_partition_at_24();
    assert(partition_terms(169, 19) == 250438925250);
    lemma_partition_at_14();
    assert(partition_terms(169, 20) == 250438925115);
}

/// The recurrence at 170.
proof fn lemma_partition_at_170()
    ensures
        partition_number(170) == 274768617130,
{
    lemma_pentagonal_values();
    lemma_partition_terms_stable(170, 20, 170);
    assert(partition_terms(170, 0) == 0);
    lemma_partition_at_169();
    assert(partition_terms(170, 1) == 250438925115);
    lemma_partition_at_168();
    assert(partition_terms(170, 2) == 478643657866);
    lemma_partition_at_165();
    assert(partition_terms(170, 3) == 306253857611);
    lemma_partition_at_163();
    assert(partition_terms(170, 4) == 163454861681);
    lemma_partition_at_158();
    assert(partition_terms(170, 5) == 252206640483);
    lemma_partition_at_155();
    assert(partition_terms(170, 6) == 318699822580);
    lemma_partition_at_148();
    assert(partition_terms(170, 7) == 285150403083);
    lemma_partition_at_144();
    assert(partition_terms(170, 8) == 262609748638);
    lemma_partition_at_135();
    assert(partition_terms(170, 9) == 271645584714);
    lemma_partition_at_130();
    assert(partition_terms(170, 10) == 277016900114);
    lemma_partition_at_119();
    assert(partition_terms(170, 11) == 275363231449);
    lemma_partition_at_113();
    assert(partition_terms(170, 12) == 274511854821);
    lemma_partition_at_100();
    assert(partition_terms(170, 13) == 274702424113);
    lemma_partition_at_93();
    assert(partition_terms(170, 14) == 274784434290);
    lemma_partition_at_78();
    assert(partition_terms(170, 15) == 274772302126);
    lemma_partition_at_70();
    assert(partition_terms(170, 16) == 274768214158);
    lemma_partition_at_53();
    assert(partition_terms(170, 17) == 274768544089);
    lemma_partition_at_44();
    assert(partition_terms(170, 18) == 274768619264);
    lemma_partition_at_25();
    assert(partition_terms(170, 19) == 274768617306);
    lemma_partition_at_15();
    assert(partition_terms(170, 20) == 274768617130);
}

/// The recurrence at 171.
proof fn lemma_partition_at_171()
    ensures
        partition_number(171) == 301384802048,
{
    lemma_pentagonal_values();
    lemma_partition_terms_stable(171, 20, 171);
    assert(partition_terms(171, 0) == 0);
    lemma_partition_at_170();
    assert(partition_terms(171, 1) == 274768617130);
    lemma_partition_at_169();
    assert(partition_terms(171, 2) == 525207542245);
    lemma_partition_at_166();
    assert(partition_terms(171, 3) == 335872719666);
    lemma_partition_at_164();
    assert(partition_terms(171, 4) == 178953244371);
    lemma_partition_at_159();
    assert(partition_terms(171, 5) == 276615972926);
    lemma_partition_at_156();
    assert(partition_terms(171, 6) == 349848216685);
    lemma_partition_at_149();
    assert(partition_terms(171, 7) == 312820861485);
    lemma_partition_at_145();
    assert(partition_terms(171, 8) == 287912003476);
    lemma_partition_at_136();
    assert(partition_terms(171, 9) == 297927585156);
    lemma_partition_at_131();
    assert(partition_terms(171, 10) == 303892124660);
    lemma_partition_at_120();
    assert(partition_terms(171, 11) == 302047775100);
    lemma_partition_at_114();
    assert(partition_terms(171, 12) == 301095724435);
    lemma_partition_at_101();
    assert(partition_terms(171, 13) == 301310205561);
    lemma_partition_at_94();
    assert(partition_terms(171, 14) == 301402875281);
    lemma_partition_at_79();
    assert(partition_terms(171, 15) == 301389026631);
    lemma_partition_at_71();
    assert(partition_terms(171, 16) == 301384329426);
    lemma_partition_at_54();
    assert(partition_terms(171, 17) == 301384715581);
    lemma_partition_at_45();
    assert(partition_terms(171, 18) == 301384804715);
    lemma_partition_at_26();
    assert(partition_terms(171, 19) == 301384802279);
    lemma_partition_at_16();
    assert(partition_terms(171, 20) == 301384802048);
}

/// The recurrence at 172.
proof fn lemma_partition_at_172()
    ensures
        partition_number(172) == 330495499613,
{
    lemma_pentagonal_values();
    lemma_partition_terms_stable(172, 20, 172);
    assert(partition_terms(172, 0) == 0);
    lemma_partition_at_171();
    assert(partition_terms(172, 1) == 301384802048);
    lemma_partition_at_170();
    assert(partition_terms(172, 2) == 576153419178);
    lemma_partition_at_167();
    assert(partition_terms(172, 3) == 368262999076);
    lemma_partition_at_165();
    assert(partition_terms(172, 4) == 195873198821);
    lemma_partition_at_160();
    assert(partition_terms(172, 5) == 303311358287);
    lemma_partition_at_157();
    assert(partition_terms(172, 6) == 383942323056);
    lemma_partition_at_150();
    assert(partition_terms(172, 7) == 343089087743);
    lemma_partition_at_146();
    assert(partition_terms(172, 8) == 315572035144);
    lemma_partition_at_137();
    assert(partition_terms(172, 9) == 326669680160);
    lemma_partition_at_132();
    assert(partition_terms(172, 10) == 333290511049);
    lemma_partition_at_121();
    assert(partition_terms(172, 11) == 331234362998);
    lemma_partition_at_115();
    assert(partition_terms(172, 12) == 330170218547);
    lemma_partition_at_102();
    assert(partition_terms(172, 13) == 330411483926);
    lemma_partition_at_95();
    assert(partition_terms(172, 14) == 330516135345);
    lemma_partition_at_80();
    assert(partition_terms(172, 15) == 330500338869);
    lemma_partition_at_72();
    assert(partition_terms(172, 16) == 330494946086);
    lemma_partition_at_55();
    assert(partition_terms(172, 17) == 330495397362);
    lemma_partition_at_46();
    assert(partition_terms(172, 18) == 330495502920);
    lemma_partition_at_27();
    assert(partition_terms(172, 19) == 330495499910);
    lemma_partition_at_17();
    assert(partition_terms(172, 20) == 330495499613);
}

/// The recurrence at 173.
proof fn lemma_partition_at_173()
    ensures
        partition_number(173) == 362326859895,
{
    lemma_pentagonal_values();
    lemma_partition_terms_stable(173, 20, 173);
    assert(partition_terms(173, 0) == 0);
    lemma_partition_at_172();
    assert(partition_terms(173, 1) == 330495499613);
    lemma_partition_at_171();
    assert(partition_terms(173, 2) == 631880301661);
    lemma_partition_at_168();
    assert(partition_terms(173, 3) == 403675568910);
    lemma_partition_at_166();
    assert(partition_terms(173, 4) == 214340746331);
    lemma_partition_at_161();
    assert(partition_terms(173, 5) == 332499814758);
    lemma_partition_at_158();
    assert(partition_terms(173, 6) == 421251593560);
    lemma_partition_at_151();
    assert(partition_terms(173, 7) == 376190968978);
    lemma_partition_at_147();
    assert(partition_terms(173, 8) == 345802297000);
    lemma_partition_at_138();
    assert(partition_terms(173, 9) == 358094638831);
    lemma_partition_at_133();
    assert(partition_terms(173, 10) == 365441268343);
    lemma_partition_at_122();
    assert(partition_terms(173, 11) == 363149947431);
    lemma_partition_at_116();
    assert(partition_terms(173, 12) == 361961039183);
    lemma_partition_at_103();
    assert(partition_terms(173, 13) == 362232288133);
    lemma_partition_at_96();
    assert(partition_terms(173, 14) == 362350402437);
    lemma_partition_at_81();
    assert(partition_terms(173, 15) == 362332398110);
    lemma_partition_at_73();
    assert(partition_terms(173, 16) == 362326212421);
    lemma_partition_at_56();
    assert(partition_terms(173, 17) == 362326739244);
    lemma_partition_at_47();
    assert(partition_terms(173, 18) == 362326863998);
    lemma_partition_at_28();
    assert(partition_terms(173, 19) == 362326860280);
    lemma_partition_at_18();
    assert(partition_terms(173, 20) == 362326859895);
}

/// The recurrence at 174.
proof fn lemma_partition_at_174()
    ensures
        partition_number(174) == 397125074750,
{
    lemma_pentagonal_values();
    lemma_partition_terms_stable(174, 20, 174);
    assert(partition_terms(174, 0) == 0);
    lemma_partition_at_173();
    assert(partition_terms(174, 1) == 362326859895);
    lemma_partition_at_172();
    assert(partition_terms(174, 2) == 692822359508);
    lemma_partition_at_169();
    assert(partition_terms(174, 3) == 442383434393);
    lemma_partition_at_167();
    assert(partition_terms(174, 4) == 234493014291);
    lemma_partition_at_162();
    assert(partition_terms(174, 5) == 364406918928);
    lemma_partition_at_159();
    assert(partition_terms(174, 6) == 462069647483);
    lemma_partition_at_152();
    assert(partition_terms(174, 7) == 412383359062);
    lemma_partition_at_148();
    assert(partition_terms(174, 8) == 378833939565);
    lemma_partition_at_139();
    assert(partition_terms(174, 9) == 392444889460);
    lemma_partition_at_134();
    assert(partition_terms(174, 10) == 400593930155);
    lemma_partition_at_123();
    assert(partition_terms(174, 11) == 398041591914);
    lemma_partition_at_117();
    assert(partition_terms(174, 12) == 396713881838);
    lemma_partition_at_104();
    assert(partition_terms(174, 13) == 397018683203);
    lemma_partition_at_97();
    assert(partition_terms(174, 14) == 397151914133);
    lemma_partition_at_82();
    assert(partition_terms(174, 15) == 397131407878);
    lemma_partition_at_74();
    assert(partition_terms(174, 16) == 397124318378);
    lemma_partition_at_57();
    assert(partition_terms(174, 17) == 397124932532);
    lemma_partition_at_48();
    assert(partition_terms(174, 18) == 397125079805);
    lemma_partition_at_29();
    assert(partition_terms(174, 19) == 397125075240);
    lemma_partition_at_19();
    assert(partition_terms(174, 20) == 397125074750);
}

/// The recurrence at 175.
proof fn lemma_partition_at_175()
    ensures
        partition_number(175) == 435157697830,
{
    lemma_pentagonal_values();
    lemma_partition_terms_stable(175, 20, 175);
    assert(partition_terms(175, 0) == 0);
    lemma_partition_at_174();
    assert(partition_terms(175, 1) == 397125074750);
    lemma_partition_at_173();
    assert(partition_terms(175, 2) == 759451934645);
    lemma_partition_at_170();
    assert(partition_terms(175, 3) == 484683317515);
    lemma_partition_at_168();
    assert(partition_terms(175, 4) == 256478584764);
    lemma_partition_at_163();
    assert(partition_terms(175, 5) == 399277580694);
    lemma_partition_at_160();
    assert(partition_terms(175, 6) == 506715740160);
    lemma_partition_at_153();
    assert(partition_terms(175, 7) == 451945403836);
    lemma_partition_at_149();
    assert(partition_terms(175, 8) == 414918048636);
    lemma_partition_at_140();
    assert(partition_terms(175, 9) == 429983926771);
    lemma_partition_at_135();
    assert(partition_terms(175, 10) == 439019762847);
    lemma_partition_at_124();
    assert(partition_terms(175, 11) == 436177822347);
    lemma_partition_at_118();
    assert(partition_terms(175, 12) == 434695748204);
    lemma_partition_at_105();
    assert(partition_terms(175, 13) == 435038073913);
    lemma_partition_at_98();
    assert(partition_terms(175, 14) == 435188272049);
    lemma_partition_at_83();
    assert(partition_terms(175, 15) == 435164933580);
    lemma_partition_at_75();
    assert(partition_terms(175, 16) == 435156815316);
    lemma_partition_at_58();
    assert(partition_terms(175, 17) == 435157530536);
    lemma_partition_at_49();
    assert(partition_terms(175, 18) == 435157704061);
    lemma_partition_at_30();
    assert(partition_terms(175, 19) == 435157698457);
    lemma_partition_at_20();
    assert(partition_terms(175, 20) == 435157697830);
}

/// The recurrence at 176.
proof fn lemma_partition_at_176()
    ensures
        partition_number(176) == 476715857290,
{
    lemma_pentagonal_values();
    lemma_partition_terms_stable(176, 21, 176);
    assert(partition_terms(176, 0) == 0);
    lemma_partition_at_175();
    assert(partition_terms(176, 1) == 435157697830);
    lemma_partition_at_174();
    assert(partition_terms(176, 2) == 832282772580);
    lemma_partition_at_171();
    assert(partition_terms(176, 3) == 530897970532);
    lemma_partition_at_169();
    assert(partition_terms(176, 4) == 280459045417);
    lemma_partition_at_164();
    assert(partition_terms(176, 5) == 437378520712);
    lemma_partition_at_161();
    assert(partition_terms(176, 6) == 555537589139);
    lemma_partition_at_154();
    assert(partition_terms(176, 7) == 495180915859);
    lemma_partition_at_150();
    assert(partition_terms(176, 8) == 454327680546);
    lemma_partition_at_141();
    assert(partition_terms(176, 9) == 470998369754);
    lemma_partition_at_136();
    assert(partition_terms(176, 10) == 481013951434);
    lemma_partition_at_125();
    assert(partition_terms(176, 11) == 477850824082);
    lemma_partition_at_119();
    assert(partition_terms(176, 12) == 476197155417);
    lemma_partition_at_106();
    assert(partition_terms(176, 13) == 476581431753);
    lemma_partition_at_99();
    assert(partition_terms(176, 14) == 476750661628);
    lemma_partition_at_84();
    assert(partition_terms(176, 15) == 476724117968);
    lemma_partition_at_76();
    assert(partition_terms(176, 16) == 476714828877);
    lemma_partition_at_59();
    assert(partition_terms(176, 17) == 476715660697);
    lemma_partition_at_50();
    assert(partition_terms(176, 18) == 476715864923);
    lemma_partition_at_31();
    assert(partition_terms(176, 19) == 476715858081);
    lemma_partition_at_21();
    assert(partition_terms(176, 20) == 476715857289);
    lemma_partition_at_0();
    assert(partition_terms(176, 21) == 476715857290);
}

/// The recurrence at 177.
proof fn lemma_partition_at_177()
    ensures
        partition_number(177) == 522115831195,
{
    lemma_pentagonal_values();
    lemma_partition_terms_stable(177, 21, 177);
    assert(partition_terms(177, 0) == 0);
    lemma_partition_at_176();
    assert(partition_terms(177, 1) == 476715857290);
    lemma_partition_at_175();
    assert(partition_terms(177, 2) == 911873555120);
    lemma_partition_at_172();
    assert(partition_terms(177, 3) == 581378055507);
    lemma_partition_at_170();
    assert(partition_terms(177, 4) == 306609438377);
    lemma_partition_at_165();
    assert(partition_terms(177, 5) == 478999238632);
    lemma_partition_at_162();
    assert(partition_terms(177, 6) == 608913143269);
    lemma_partition_at_155();
    assert(partition_terms(177, 7) == 542419961172);
    lemma_partition_at_151();
    assert(partition_terms(177, 8) == 497359336590);
    lemma_partition_at_142();
    assert(partition_terms(177, 9) == 515799629910);
    lemma_partition_at_137();
    assert(partition_terms(177, 10) == 526897274926);
    lemma_partition_at_126();
    assert(partition_terms(177, 11) == 523378052234);
    lemma_partition_at_120();
    assert(partition_terms(177, 12) == 521533702674);
    lemma_partition_at_107();
    assert(partition_terms(177, 13) == 521964852063);
    lemma_partition_at_100();
    assert(partition_terms(177, 14) == 522155421355);
    lemma_partition_at_85();
    assert(partition_terms(177, 15) == 522125253998);
    lemma_partition_at_77();
    assert(partition_terms(177, 16) == 522114634135);
    lemma_partition_at_60();
    assert(partition_terms(177, 17) == 522115600602);
    lemma_partition_at_51();
    assert(partition_terms(177, 18) == 522115840545);
    lemma_partition_at_32();
    assert(partition_terms(177, 19) == 522115832196);
    lemma_partition_at_22();
    assert(partition_terms(177, 20) == 522115831194);
    lemma_partition_at_1();
    assert(partition_terms(177, 21) == 522115831195);
}

/// The recurrence at 178.
proof fn lemma_partition_at_178()
    ensures
        partition_number(178) == 571701605655,
{
    lemma_pentagonal_values();
    lemma_partition_terms_stable(178, 21, 178);
    assert(partition_terms(178, 0) == 0);
    lemma_partition_at_177();
    assert(partition_terms(178, 1) == 522115831195);
    lemma_partition_at_176();
    assert(partition_terms(178, 2) == 998831688485);
    lemma_partition_at_173();
    assert(partition_terms(178, 3) == 636504828590);
    lemma_partition_at_171();
    assert(partition_terms(178, 4) == 335120026542);
    lemma_partition_at_166();
    assert(partition_terms(178, 5) == 524454849121);
    lemma_partition_at_163();
    assert(partition_terms(178, 6) == 667253845051);
    lemma_partition_at_156();
    assert(partition_terms(178, 7) == 594021601292);
    lemma_partition_at_152();
    assert(partition_terms(178, 8) == 544335312871);
    lemma_partition_at_143();
    assert(partition_terms(178, 9) == 564726295628);
    lemma_partition_at_138();
    assert(partition_terms(178, 10) == 577018637459);
    lemma_partition_at_127();
    assert(partition_terms(178, 11) == 573104773164);
    lemma_partition_at_121();
    assert(partition_terms(178, 12) == 571048625113);
    lemma_partition_at_108();
    assert(partition_terms(178, 13) == 571532127957);
    lemma_partition_at_101();
    assert(partition_terms(178, 14) == 571746609083);
    lemma_partition_at_86();
    assert(partition_terms(178, 15) == 571712346121);
    lemma_partition_at_78();
    assert(partition_terms(178, 16) == 571700213957);
    lemma_partition_at_61();
    assert(partition_terms(178, 17) == 571701335462);
    lemma_partition_at_52();
    assert(partition_terms(178, 18) == 571701617051);
    lemma_partition_at_33();
    assert(partition_terms(178, 19) == 571701606908);
    lemma_partition_at_23();
    assert(partition_terms(178, 20) == 571701605653);
    lemma_partition_at_2();
    assert(partition_terms(178, 21) == 571701605655);
}

/// The recurrence at 179.
proof fn lemma_partition_at_179()
    ensures
        partition_number(179) == 625846753120,
{
    lemma_pentagonal_values();
    lemma_partition_terms_stable(179, 21, 179);
    assert(partition_terms(179, 0) == 0);
    lemma_partition_at_178();
    assert(partition_terms(179, 1) == 571701605655);
    lemma_partition_at_177();
    assert(partition_terms(179, 2) == 1093817436850);
    lemma_partition_at_174();
    assert(partition_terms(179, 3) == 696692362100);
    lemma_partition_at_172();
    assert(partition_terms(179, 4) == 366196862487);
    lemma_partition_at_167();
    assert(partition_terms(179, 5) == 574087282589);
    lemma_partition_at_164();
    assert(partition_terms(179, 6) == 731006757884);
    lemma_partition_at_157();
    assert(partition_terms(179, 7) == 650375793115);
    lemma_partition_at_153();
    assert(partition_terms(179, 8) == 595605456791);
    lemma_partition_at_144();
    assert(partition_terms(179, 9) == 618146111236);
    lemma_partition_at_139();
    assert(partition_terms(179, 10) == 631757061131);
    lemma_partition_at_128();
    assert(partition_terms(179, 11) == 627405982531);
    lemma_partition_at_122();
    assert(partition_terms(179, 12) == 625114661619);
    lemma_partition_at_109();
    assert(partition_terms(179, 13) == 625656607859);
    lemma_partition_at_102();
    assert(partition_terms(179, 14) == 625897873238);
    lemma_partition_at_87();
    assert(partition_terms(179, 15) == 625858985565);
    lemma_partition_at_79();
    assert(partition_terms(179, 16) == 625845136915);
    lemma_partition_at_62();
    assert(partition_terms(179, 17) == 625846437071);
    lemma_partition_at_53();
    assert(partition_terms(179, 18) == 625846767002);
    lemma_partition_at_34();
    assert(partition_terms(179, 19) == 625846754692);
    lemma_partition_at_24();
    assert(partition_terms(179, 20) == 625846753117);
    lemma_partition_at_3();
    assert(partition_terms(179, 21) == 625846753120);
}

/// The recurrence at 180.
proof fn lemma_partition_at_180()
    ensures
        partition_number(180) == 684957390936,
{
    lemma_pentagonal_values();
    lemma_partition_terms_stable(180, 21, 180);
    assert(partition_terms(180, 0) == 0);
    lemma_partition_at_179();
    assert(partition_terms(180, 1) == 625846753120);
    lemma_partition_at_178();
    assert(partition_terms(180, 2) == 1197548358775);
    lemma_partition_at_175();
    assert(partition_terms(180, 3) == 762390660945);
    lemma_partition_at_173();
    assert(partition_terms(180, 4) == 400063801050);
    lemma_partition_at_168();
    assert(partition_terms(180, 5) == 628268533801);
    lemma_partition_at_165();
    assert(partition_terms(180, 6) == 800658334056);
    lemma_partition_at_158();
    assert(partition_terms(180, 7) == 711906555254);
    lemma_partition_at_154();
    assert(partition_terms(180, 8) == 651549881974);
    lemma_partition_at_145();
    assert(partition_terms(180, 9) == 676458739983);
    lemma_partition_at_140();
    assert(partition_terms(180, 10) == 691524618118);
    lemma_partition_at_129();
    assert(partition_terms(180, 11) == 686689346248);
    lemma_partition_at_123();
    assert(partition_terms(180, 12) == 684137008007);
    lemma_partition_at_110();
    assert(partition_terms(180, 13) == 684744171753);
    lemma_partition_at_103();
    assert(partition_terms(180, 14) == 685015420703);
    lemma_partition_at_88();
    assert(partition_terms(180, 15) == 684971312594);
    lemma_partition_at_80();
    assert(partition_terms(180, 16) == 684955516118);
    lemma_partition_at_63();
    assert(partition_terms(180, 17) == 684957021617);
    lemma_partition_at_54();
    assert(partition_terms(180, 18) == 684957407772);
    lemma_partition_at_35();
    assert(partition_terms(180, 19) == 684957392889);
    lemma_partition_at_25();
    assert(partition_terms(180, 20) == 684957390931);
    lemma_partition_at_4();
    assert(partition_terms(180, 21) == 684957390936);
}

/// The recurrence at 181.
proof fn lemma_partition_at_181()
    ensures
        partition_number(181) == 749474411781,
{
    lemma_pentagonal_values();
    lemma_partition_terms_stable(181, 21, 181);
    assert(partition_terms(181, 0) == 0);
    lemma_partition_at_180();
    assert(partition_terms(181, 1) == 684957390936);
    lemma_partition_at_179();
    assert(partition_terms(181, 2) == 1310804144056);
    lemma_partition_at_176();
    assert(partition_terms(181, 3) == 834088286766);
    lemma_partition_at_174();
    assert(partition_terms(181, 4) == 436963212016);
    lemma_partition_at_169();
    assert(partition_terms(181, 5) == 687402137131);
    lemma_partition_at_166();
    assert(partition_terms(181, 6) == 876736959710);
    lemma_partition_at_159();
    assert(partition_terms(181, 7) == 779074231155);
    lemma_partition_at_155();
    assert(partition_terms(181, 8) == 712581049058);
    lemma_partition_at_146();
    assert(partition_terms(181, 9) == 740098101657);
    lemma_partition_at_141();
    assert(partition_terms(181, 10) == 756768790865);
    lemma_partition_at_130();
    assert(partition_terms(181, 11) == 751397475465);
    lemma_partition_at_124();
    assert(partition_terms(181, 12) == 748555534965);
    lemma_partition_at_111();
    assert(partition_terms(181, 13) == 749235438168);
    lemma_partition_at_104();
    assert(partition_terms(181, 14) == 749540239533);
    lemma_partition_at_89();
    assert(partition_terms(181, 15) == 749490243608);
    lemma_partition_at_81();
    assert(partition_terms(181, 16) == 749472239281);
    lemma_partition_at_64();
    assert(partition_terms(181, 17) == 749473980911);
    lemma_partition_at_55();
    assert(partition_terms(181, 18) == 749474432187);
    lemma_partition_at_36();
    assert(partition_terms(181, 19) == 749474414210);
    lemma_partition_at_26();
    assert(partition_terms(181, 20) == 749474411774);
    lemma_partition_at_5();
    assert(partition_terms(181, 21) == 749474411781);
}

/// The recurrence at 182.
proof fn lemma_partition_at_182()
    ensures
        partition_number(182) == 819876908323,
{
    lemma_pentagonal_values();
    lemma_partition_terms_stable(182, 21, 182);
    assert(partition_terms(182, 0) == 0);
    lemma_partition_at_181();
    assert(partition_terms(182, 1) == 749474411781);
    lemma_partition_at_180();
    assert(partition_terms(182, 2) == 1434431802717);
    lemma_partition_at_177();
    assert(partition_terms(182, 3) == 912315971522);
    lemma_partition_at_175();
    assert(partition_terms(182, 4) == 477158273692);
    lemma_partition_at_170();
    assert(partition_terms(182, 5) == 751926890822);
    lemma_partition_at_167();
    assert(partition_terms(182, 6) == 959817310924);
    lemma_partition_at_160();
    assert(partition_terms(182, 7) == 852379151458);
    lemma_partition_at_156();
    assert(partition_terms(182, 8) == 779146907699);
    lemma_partition_at_147();
    assert(partition_terms(182, 9) == 809535579677);
    lemma_partition_at_142();
    assert(partition_terms(182, 10) == 827975872997);
    lemma_partition_at_131();
    assert(partition_terms(182, 11) == 822011333493);
    lemma_partition_at_125();
    assert(partition_terms(182, 12) == 818848206141);
    lemma_partition_at_112();
    assert(partition_terms(182, 13) == 819609208297);
    lemma_partition_at_105();
    assert(partition_terms(182, 14) == 819951534006);
    lemma_partition_at_90();
    assert(partition_terms(182, 15) == 819894899833);
    lemma_partition_at_82();
    assert(partition_terms(182, 16) == 819874393578);
    lemma_partition_at_65();
    assert(partition_terms(182, 17) == 819876406136);
    lemma_partition_at_56();
    assert(partition_terms(182, 18) == 819876932959);
    lemma_partition_at_37();
    assert(partition_terms(182, 19) == 819876911322);
    lemma_partition_at_27();
    assert(partition_terms(182, 20) == 819876908312);
    lemma_partition_at_6();
    assert(partition_terms(182, 21) == 819876908323);
}

/// The recurrence at 183.
proof fn lemma_partition_at_183()
    ensures
        partition_number(183) == 896684817527,
{
    lemma_pentagonal_values();
    lemma_partition_terms_stable(183, 21, 183);
    assert(partition_terms(183, 0) == 0);
    lemma_partition_at_182();
    assert(partition_terms(183, 1) == 819876908323);
    lemma_partition_at_181();
    assert(partition_terms(183, 2) == 1569351320104);
    lemma_partition_at_178();
    assert(partition_terms(183, 3) == 997649714449);
    lemma_partition_at_176();
    assert(partition_terms(183, 4) == 520933857159);
    lemma_partition_at_171();
    assert(partition_terms(183, 5) == 822318659207);
    lemma_partition_at_168();
    assert(partition_terms(183, 6) == 1050523391958);
    lemma_partition_at_161();
    assert(partition_terms(183, 7) == 932364323531);
    lemma_partition_at_157();
    assert(partition_terms(183, 8) == 851733358762);
    lemma_partition_at_148();
    assert(partition_terms(183, 9) == 885282778259);
    lemma_partition_at_143();
    assert(partition_terms(183, 10) == 905673761016);
    lemma_partition_at_132();
    assert(partition_terms(183, 11) == 899052930127);
    lemma_partition_at_126();
    assert(partition_terms(183, 12) == 895533707435);
    lemma_partition_at_113();
    assert(partition_terms(183, 13) == 896385084063);
    lemma_partition_at_106();
    assert(partition_terms(183, 14) == 896769360399);
    lemma_partition_at_91();
    assert(partition_terms(183, 15) == 896705248040);
    lemma_partition_at_83();
    assert(partition_terms(183, 16) == 896681909571);
    lemma_partition_at_66();
    assert(partition_terms(183, 17) == 896684233091);
    lemma_partition_at_57();
    assert(partition_terms(183, 18) == 896684847245);
    lemma_partition_at_38();
    assert(partition_terms(183, 19) == 896684821230);
    lemma_partition_at_28();
    assert(partition_terms(183, 20) == 896684817512);
    lemma_partition_at_7();
    assert(partition_terms(183, 21) == 896684817527);
}

/// The recurrence at 184.
proof fn lemma_partition_at_184()
    ensures
        partition_number(184) == 980462880430,
{
    lemma_pentagonal_values();
    lemma_partition_terms_stable(184, 21, 184);
    assert(partition_terms(184, 0) == 0);
    lemma_partition_at_183();
    assert(partition_terms(184, 1) == 896684817527);
    lemma_partition_at_182();
    assert(partition_terms(184, 2) == 1716561725850);
    lemma_partition_at_179();
    assert(partition_terms(184, 3) == 1090714972730);
    lemma_partition_at_177();
    assert(partition_terms(184, 4) == 568599141535);
    lemma_partition_at_172();
    assert(partition_terms(184, 5) == 899094641148);
    lemma_partition_at_169();
    assert(partition_terms(184, 6) == 1149533566263);
    lemma_partition_at_162();
    assert(partition_terms(184, 7) == 1019619661626);
    lemma_partition_at_158();
    assert(partition_terms(184, 8) == 930867882824);
    lemma_partition_at_149();
    assert(partition_terms(184, 9) == 967895238024);
    lemma_partition_at_144();
    assert(partition_terms(184, 10) == 990435892469);
    lemma_partition_at_133();
    assert(partition_terms(184, 11) == 983089262957);
    lemma_partition_at_127();
    assert(partition_terms(184, 12) == 979175398662);
    lemma_partition_at_114();
    assert(partition_terms(184, 13) == 980127449327);
    lemma_partition_at_107();
    assert(partition_terms(184, 14) == 980558598716);
    lemma_partition_at_92();
    assert(partition_terms(184, 15) == 980486064909);
    lemma_partition_at_84();
    assert(partition_terms(184, 16) == 980459521249);
    lemma_partition_at_67();
    assert(partition_terms(184, 17) == 980462200938);
    lemma_partition_at_58();
    assert(partition_terms(184, 18) == 980462916158);
    lemma_partition_at_39();
    assert(partition_terms(184, 19) == 980462884973);
    lemma_partition_at_29();
    assert(partition_terms(184, 20) == 980462880408);
    lemma_partition_at_8();
    assert(partition_terms(184, 21) == 980462880430);
}

/// The recurrence at 185.
proof fn lemma_partition_at_185()
    ensures
        partition_number(185) == 1071823774337,
{
    lemma_pentagonal_values();
    lemma_partition_terms_stable(185, 21, 185);
    assert(partition_terms(185, 0) == 0);
    lemma_partition_at_184();
    assert(partition_terms(185, 1) == 980462880430);
    lemma_partition_at_183();
    assert(partition_terms(185, 2) == 1877147697957);
    lemma_partition_at_180();
    assert(partition_terms(185, 3) == 1192190307021);
    lemma_partition_at_178();
    assert(partition_terms(185, 4) == 620488701366);
    lemma_partition_at_173();
    assert(partition_terms(185, 5) == 982815561261);
    lemma_partition_at_170();
    assert(partition_terms(185, 6) == 1257584178391);
    lemma_partition_at_163();
    assert(partition_terms(185, 7) == 1114785182461);
    lemma_partition_at_159();
    assert(partition_terms(185, 8) == 1017122453906);
    lemma_partition_at_150();
    assert(partition_terms(185, 9) == 1057975689219);
    lemma_partition_at_145();
    assert(partition_terms(185, 10) == 1082884547228);
    lemma_partition_at_134();
    assert(partition_terms(185, 11) == 1074735506533);
    lemma_partition_at_128();
    assert(partition_terms(185, 12) == 1070384427933);
    lemma_partition_at_115();
    assert(partition_terms(185, 13) == 1071448572384);
    lemma_partition_at_108();
    assert(partition_terms(185, 14) == 1071932075228);
    lemma_partition_at_93();
    assert(partition_terms(185, 15) == 1071850065051);
    lemma_partition_at_85();
    assert(partition_terms(185, 16) == 1071819897694);
    lemma_partition_at_68();
    assert(partition_terms(185, 17) == 1071822985429);
    lemma_partition_at_59();
    assert(partition_terms(185, 18) == 1071823817249);
    lemma_partition_at_40();
    assert(partition_terms(185, 19) == 1071823779911);
    lemma_partition_at_30();
    assert(partition_terms(185, 20) == 1071823774307);
    lemma_partition_at_9();
    assert(partition_terms(185, 21) == 1071823774337);
}

/// The recurrence at 186.
proof fn lemma_partition_at_186()
    ensures
        partition_number(186) == 1171432692373,
{
    lemma_pentagonal_values();
    lemma_partition_terms_stable(186, 21, 186);
    assert(partition_terms(186, 0) == 0);
    lemma_partition_at_185();
    assert(partition_terms(186, 1) == 1071823774337);
    lemma_partition_at_184();
    assert(partition_terms(186, 2) == 2052286654767);
    lemma_partition_at_181();
    assert(partition_terms(186, 3) == 1302812242986);
    lemma_partition_at_179();
    assert(partition_terms(186, 4) == 676965489866);
    lemma_partition_at_174();
    assert(partition_terms(186, 5) == 1074090564616);
    lemma_partition_at_171();
    assert(partition_terms(186, 6) == 1375475366664);
    lemma_partition_at_164();
    assert(partition_terms(186, 7) == 1218555891369);
    lemma_partition_at_160();
    assert(partition_terms(186, 8) == 1111117731903);
    lemma_partition_at_151();
    assert(partition_terms(186, 9) == 1156178356485);
    lemma_partition_at_146();
    assert(partition_terms(186, 10) == 1183695409084);
    lemma_partition_at_135();
    assert(partition_terms(186, 11) == 1174659573008);
    lemma_partition_at_129();
    assert(partition_terms(186, 12) == 1169824301138);
    lemma_partition_at_116();
    assert(partition_terms(186, 13) == 1171013209386);
    lemma_partition_at_109();
    assert(partition_terms(186, 14) == 1171555155626);
    lemma_partition_at_94();
    assert(partition_terms(186, 15) == 1171462485906);
    lemma_partition_at_86();
    assert(partition_terms(186, 16) == 1171428222944);
    lemma_partition_at_69();
    assert(partition_terms(186, 17) == 1171431777289);
    lemma_partition_at_60();
    assert(partition_terms(186, 18) == 1171432743756);
    lemma_partition_at_41();
    assert(partition_terms(186, 19) == 1171432699173);
    lemma_partition_at_31();
    assert(partition_terms(186, 20) == 1171432692331);
    lemma_partition_at_10();
    assert(partition_terms(186, 21) == 1171432692373);
}

/// The recurrence at 187.
proof fn lemma_partition_at_187()
    ensures
        partition_number(187) == 1280011042268,
{
    lemma_pentagonal_values();
    lemma_partition_terms_stable(187, 22, 187);
    assert(partition_terms(187, 0) == 0);
    lemma_partition_at_186();
    assert(partition_terms(187, 1) == 1171432692373);
    lemma_partition_at_185();
    assert(partition_terms(187, 2) == 2243256466710);
    lemma_partition_at_182();
    assert(partition_terms(187, 3) == 1423379558387);
    lemma_partition_at_180();
    assert(partition_terms(187, 4) == 738422167451);
    lemma_partition_at_175();
    assert(partition_terms(187, 5) == 1173579865281);
    lemma_partition_at_172();
    assert(partition_terms(187, 6) == 1504075364894);
    lemma_partition_at_165();
    assert(partition_terms(187, 7) == 1331685564639);
    lemma_partition_at_161();
    assert(partition_terms(187, 8) == 1213526496212);
    lemma_partition_at_152();
    assert(partition_terms(187, 9) == 1263212784633);
    lemma_partition_at_147();
    assert(partition_terms(187, 10) == 1293601456611);
    lemma_partition_at_136();
    assert(partition_terms(187, 11) == 1283585874931);
    lemma_partition_at_130();
    assert(partition_terms(187, 12) == 1278214559531);
    lemma_partition_at_117();
    assert(partition_terms(187, 13) == 1279542269607);
    lemma_partition_at_110();
    assert(partition_terms(187, 14) == 1280149433353);
    lemma_partition_at_95();
    assert(partition_terms(187, 15) == 1280044781934);
    lemma_partition_at_87();
    assert(partition_terms(187, 16) == 1280005894261);
    lemma_partition_at_70();
    assert(partition_terms(187, 17) == 1280009982229);
    lemma_partition_at_61();
    assert(partition_terms(187, 18) == 1280011103734);
    lemma_partition_at_42();
    assert(partition_terms(187, 19) == 1280011050560);
    lemma_partition_at_32();
    assert(partition_terms(187, 20) == 1280011042211);
    lemma_partition_at_11();
    assert(partition_terms(187, 21) == 1280011042267);
    lemma_partition_at_0();
    assert(partition_terms(187, 22) == 1280011042268);
}

/// The recurrence at 188.
proof fn lemma_partition_at_188()
    ensures
        partition_number(188) == 1398341745571,
{
    lemma_pentagonal_values();
    lemma_partition_terms_stable(188, 22, 188);
    assert(partition_terms(188, 0) == 0);
    lemma_partition_at_187();
    assert(partition_terms(188, 1) == 1280011042268);
    lemma_partition_at_186();
    assert(partition_terms(188, 2) == 2451443734641);
    lemma_partition_at_183();
    assert(partition_terms(188, 3) == 1554758917114);
    lemma_partition_at_181();
    assert(partition_terms(188, 4) == 805284505333);
    lemma_partition_at_176();
    assert(partition_terms(188, 5) == 1282000362623);
    lemma_partition_at_173();
    assert(partition_terms(188, 6) == 1644327222518);
    lemma_partition_at_166();
    assert(partition_terms(188, 7) == 1454992399939);
    lemma_partition_at_162();
    assert(partition_terms(188, 8) == 1325078495302);
    lemma_partition_at_153();
    assert(partition_terms(188, 9) == 1379848831626);
    lemma_partition_at_148();
    assert(partition_terms(188, 10) == 1413398251123);
    lemma_partition_at_137();
    assert(partition_terms(188, 11) == 1402300606107);
    lemma_partition_at_131();
    assert(partition_terms(188, 12) == 1396336066603);
    lemma_partition_at_118();
    assert(partition_terms(188, 13) == 1397818140746);
    lemma_partition_at_111();
    assert(partition_terms(188, 14) == 1398498043949);
    lemma_partition_at_96();
    assert(partition_terms(188, 15) == 1398379929645);
    lemma_partition_at_88();
    assert(partition_terms(188, 16) == 1398335821536);
    lemma_partition_at_71();
    assert(partition_terms(188, 17) == 1398340518741);
    lemma_partition_at_62();
    assert(partition_terms(188, 18) == 1398341818897);
    lemma_partition_at_43();
    assert(partition_terms(188, 19) == 1398341755636);
    lemma_partition_at_33();
    assert(partition_terms(188, 20) == 1398341745493);
    lemma_partition_at_12();
    assert(partition_terms(188, 21) == 1398341745570);
    lemma_partition_at_1();
    assert(partition_terms(188, 22) == 1398341745571);
}

/// The recurrence at 189.
proof fn lemma_partition_at_189()
    ensures
        partition_number(189) == 1527273599625,
{
    lemma_pentagonal_values();
    lemma_partition_terms_stable(189, 22, 189);
    assert(partition_terms(189, 0) == 0);
    lemma_partition_at_188();
    assert(partition_terms(189, 1) == 1398341745571);
    lemma_partition_at_187();
    assert(partition_terms(189, 2) == 2678352787839);
    lemma_partition_at_184();
    assert(partition_terms(189, 3) == 1697889907409);
    lemma_partition_at_182();
    assert(partition_terms(189, 4) == 878012999086);
    lemma_partition_at_177();
    assert(partition_terms(189, 5) == 1400128830281);
    lemma_partition_at_174();
    assert(partition_terms(189, 6) == 1797253905031);
    lemma_partition_at_167();
    assert(partition_terms(189, 7) == 1589363484929);
    lemma_partition_at_163();
    assert(partition_terms(189, 8) == 1446564488999);
    lemma_partition_at_154();
    assert(partition_terms(189, 9) == 1506921162279);
    lemma_partition_at_149();
    assert(partition_terms(189, 10) == 1543948517479);
    lemma_partition_at_138();
    assert(partition_terms(189, 11) == 1531656175648);
    lemma_partition_at_132();
    assert(partition_terms(189, 12) == 1525035344759);
    lemma_partition_at_119();
    assert(partition_terms(189, 13) == 1526689013424);
    lemma_partition_at_112();
    assert(partition_terms(189, 14) == 1527450015580);
    lemma_partition_at_97();
    assert(partition_terms(189, 15) == 1527316784650);
    lemma_partition_at_89();
    assert(partition_terms(189, 16) == 1527266788725);
    lemma_partition_at_72();
    assert(partition_terms(189, 17) == 1527272181508);
    lemma_partition_at_63();
    assert(partition_terms(189, 18) == 1527273687007);
    lemma_partition_at_44();
    assert(partition_terms(189, 19) == 1527273611832);
    lemma_partition_at_34();
    assert(partition_terms(189, 20) == 1527273599522);
    lemma_partition_at_13();
    assert(partition_terms(189, 21) == 1527273599623);
    lemma_partition_at_2();
    assert(partition_terms(189, 22) == 1527273599625);
}

/// The recurrence at 190.
proof fn lemma_partition_at_190()
    ensures
        partition_number(190) == 1667727404093,
{
    lemma_pentagonal_values();
    lemma_partition_terms_stable(190, 22, 190);
    assert(partition_terms(190, 0) == 0);
    lemma_partition_at_189();
    assert(partition_terms(190, 1) == 1527273599625);
    lemma_partition_at_188();
    assert(partition_terms(190, 2) == 2925615345196);
    lemma_partition_at_185();
    assert(partition_terms(190, 3) == 1853791570859);
    lemma_partition_at_183();
    assert(partition_terms(190, 4) == 957106753332);
    lemma_partition_at_178();
    assert(partition_terms(190, 5) == 1528808358987);
    lemma_partition_at_175();
    assert(partition_terms(190, 6) == 1963966056817);
    lemma_partition_at_168();
    assert(partition_terms(190, 7) == 1735761324066);
    lemma_partition_at_164();
    assert(partition_terms(190, 8) == 1578841848771);
    lemma_partition_at_155();
    assert(partition_terms(190, 9) == 1645335030868);
    lemma_partition_at_150();
    assert(partition_terms(190, 10) == 1686188266181);
    lemma_partition_at_139();
    assert(partition_terms(190, 11) == 1672577316286);
    lemma_partition_at_133();
    assert(partition_terms(190, 12) == 1665230686774);
    lemma_partition_at_120();
    assert(partition_terms(190, 13) == 1667075036334);
    lemma_partition_at_113();
    assert(partition_terms(190, 14) == 1667926412962);
    lemma_partition_at_98();
    assert(partition_terms(190, 15) == 1667776214826);
    lemma_partition_at_90();
    assert(partition_terms(190, 16) == 1667719580653);
    lemma_partition_at_73();
    assert(partition_terms(190, 17) == 1667725766342);
    lemma_partition_at_64();
    assert(partition_terms(190, 18) == 1667727507972);
    lemma_partition_at_45();
    assert(partition_terms(190, 19) == 1667727418838);
    lemma_partition_at_35();
    assert(partition_terms(190, 20) == 1667727403955);
    lemma_partition_at_14();
    assert(partition_terms(190, 21) == 1667727404090);
    lemma_partition_at_3();
    assert(partition_terms(190, 22) == 1667727404093);
}

/// The recurrence at 191.
proof fn lemma_partition_at_191()
    ensures
        partition_number(191) == 1820701100652,
{
    lemma_pentagonal_values();
    lemma_partition_terms_stable(191, 22, 191);
    assert(partition_terms(191, 0) == 0);
    lemma_partition_at_190();
    assert(partition_terms(191, 1) == 1667727404093);
    lemma_partition_at_189();
    assert(partition_terms(191, 2) == 3195001003718);
    lemma_partition_at_186();
    assert(partition_terms(191, 3) == 2023568311345);
    lemma_partition_at_184();
    assert(partition_terms(191, 4) == 1043105430915);
    lemma_partition_at_179();
    assert(partition_terms(191, 5) == 1668952184035);
    lemma_partition_at_176();
    assert(partition_terms(191, 6) == 2145668041325);
    lemma_partition_at_169();
    assert(partition_terms(191, 7) == 1895229116210);
    lemma_partition_at_165();
    assert(partition_terms(191, 8) == 1722839315955);
    lemma_partition_at_156();
    assert(partition_terms(191, 9) == 1796071559714);
    lemma_partition_at_151();
    assert(partition_terms(191, 10) == 1841132184296);
    lemma_partition_at_140();
    assert(partition_terms(191, 11) == 1826066306161);
    lemma_partition_at_134();
    assert(partition_terms(191, 12) == 1817917265466);
    lemma_partition_at_121();
    assert(partition_terms(191, 13) == 1819973413517);
    lemma_partition_at_114();
    assert(partition_terms(191, 14) == 1820925464182);
    lemma_partition_at_99();
    assert(partition_terms(191, 15) == 1820756234307);
    lemma_partition_at_91();
    assert(partition_terms(191, 16) == 1820692121948);
    lemma_partition_at_74();
    assert(partition_terms(191, 17) == 1820699211448);
    lemma_partition_at_65();
    assert(partition_terms(191, 18) == 1820701224006);
    lemma_partition_at_46();
    assert(partition_terms(191, 19) == 1820701118448);
    lemma_partition_at_36();
    assert(partition_terms(191, 20) == 1820701100471);
    lemma_partition_at_15();
    assert(partition_terms(191, 21) == 1820701100647);
    lemma_partition_at_4();
    assert(partition_terms(191, 22) == 1820701100652);
}

/// The recurrence at 192.
proof fn lemma_partition_at_192()
    ensures
        partition_number(192) == 1987276856363,
{
    lemma_pentagonal_values();
    lemma_partition_terms_stable(192, 22, 192);
    assert(partition_terms(192, 0) == 0);
    lemma_partition_at_191();
    assert(partition_terms(192, 1) == 1820701100652);
    lemma_partition_at_190();
    assert(partition_terms(192, 2) == 3488428504745);
    lemma_partition_at_187();
    assert(partition_terms(192, 3) == 2208417462477);
    lemma_partition_at_185();
    assert(partition_terms(192, 4) == 1136593688140);
    lemma_partition_at_180();
    assert(partition_terms(192, 5) == 1821551079076);
    lemma_partition_at_177();
    assert(partition_terms(192, 6) == 2343666910271);
    lemma_partition_at_170();
    assert(partition_terms(192, 7) == 2068898293141);
    lemma_partition_at_166();
    assert(partition_terms(192, 8) == 1879563470562);
    lemma_partition_at_157();
    assert(partition_terms(192, 9) == 1960194435331);
    lemma_partition_at_152();
    assert(partition_terms(192, 10) == 2009880723752);
    lemma_partition_at_141();
    assert(partition_terms(192, 11) == 1993210034544);
    lemma_partition_at_135();
    assert(partition_terms(192, 12) == 1984174198468);
    lemma_partition_at_122();
    assert(partition_terms(192, 13) == 1986465519380);
    lemma_partition_at_115();
    assert(partition_terms(192, 14) == 1987529663831);
    lemma_partition_at_100();
    assert(partition_terms(192, 15) == 1987339094539);
    lemma_partition_at_92();
    assert(partition_terms(192, 16) == 1987266560732);
    lemma_partition_at_75();
    assert(partition_terms(192, 17) == 1987274678996);
    lemma_partition_at_66();
    assert(partition_terms(192, 18) == 1987277002516);
    lemma_partition_at_47();
    assert(partition_terms(192, 19) == 1987276877762);
    lemma_partition_at_37();
    assert(partition_terms(192, 20) == 1987276856125);
    lemma_partition_at_16();
    assert(partition_terms(192, 21) == 1987276856356);
    lemma_partition_at_5();
    assert(partition_terms(192, 22) == 1987276856363);
}

/// The recurrence at 193.
proof fn lemma_partition_at_193()
    ensures
        partition_number(193) == 2168627105469,
{
    lemma_pentagonal_values();
    lemma_partition_terms_stable(193, 22, 193);
    assert(partition_terms(193, 0) == 0);
    lemma_partition_at_192();
    assert(partition_terms(193, 1) == 1987276856363);
    lemma_partition_at_191();
    assert(partition_terms(193, 2) == 3807977957015);
    lemma_partition_at_188();
    assert(partition_terms(193, 3) == 2409636211444);
    lemma_partition_at_186();
    assert(partition_terms(193, 4) == 1238203519071);
    lemma_partition_at_181();
    assert(partition_terms(193, 5) == 1987677930852);
    lemma_partition_at_178();
    assert(partition_terms(193, 6) == 2559379536507);
    lemma_partition_at_171();
    assert(partition_terms(193, 7) == 2257994734459);
    lemma_partition_at_167();
    assert(partition_terms(193, 8) == 2050104314357);
    lemma_partition_at_158();
    assert(partition_terms(193, 9) == 2138856093159);
    lemma_partition_at_153();
    assert(partition_terms(193, 10) == 2193626429483);
    lemma_partition_at_142();
    assert(partition_terms(193, 11) == 2175186136163);
    lemma_partition_at_136();
    assert(partition_terms(193, 12) == 2165170554483);
    lemma_partition_at_123();
    assert(partition_terms(193, 13) == 2167722892724);
    lemma_partition_at_116();
    assert(partition_terms(193, 14) == 2168911800972);
    lemma_partition_at_101();
    assert(partition_terms(193, 15) == 2168697319846);
    lemma_partition_at_93();
    assert(partition_terms(193, 16) == 2168615309669);
    lemma_partition_at_76();
    assert(partition_terms(193, 17) == 2168624598760);
    lemma_partition_at_67();
    assert(partition_terms(193, 18) == 2168627278449);
    lemma_partition_at_48();
    assert(partition_terms(193, 19) == 2168627131176);
    lemma_partition_at_38();
    assert(partition_terms(193, 20) == 2168627105161);
    lemma_partition_at_17();
    assert(partition_terms(193, 21) == 2168627105458);
    lemma_partition_at_6();
    assert(partition_terms(193, 22) == 2168627105469);
}

/// The recurrence at 194.
proof fn lemma_partition_at_194()
    ensures
        partition_number(194) == 2366022741845,
{
    lemma_pentagonal_values();
    lemma_partition_terms_stable(194, 22, 194);
    assert(partition_terms(194, 0) == 0);
    lemma_partition_at_193();
    assert(partition_terms(194, 1) == 2168627105469);
    lemma_partition_at_192();
    assert(partition_terms(194, 2) == 4155903961832);
    lemma_partition_at_189();
    assert(partition_terms(194, 3) == 2628630362207);
    lemma_partition_at_187();
    assert(partition_terms(194, 4) == 1348619319939);
    lemma_partition_at_182();
    assert(partition_terms(194, 5) == 2168496228262);
    lemma_partition_at_179();
    assert(partition_terms(194, 6) == 2794342981382);
    lemma_partition_at_172();
    assert(partition_terms(194, 7) == 2463847481769);
    lemma_partition_at_168();
    assert(partition_terms(194, 8) == 2235642749018);
    lemma_partition_at_159();
    assert(partition_terms(194, 9) == 2333305477573);
    lemma_partition_at_154();
    assert(partition_terms(194, 10) == 2393662150853);
    lemma_partition_at_143();
    assert(partition_terms(194, 11) == 2373271168096);
    lemma_partition_at_137();
    assert(partition_terms(194, 12) == 2362173523080);
    lemma_partition_at_124();
    assert(partition_terms(194, 13) == 2365015463580);
    lemma_partition_at_117();
    assert(partition_terms(194, 14) == 2366343173656);
    lemma_partition_at_102();
    assert(partition_terms(194, 15) == 2366101908277);
    lemma_partition_at_94();
    assert(partition_terms(194, 16) == 2366009238557);
    lemma_partition_at_77();
    assert(partition_terms(194, 17) == 2366019858420);
    lemma_partition_at_68();
    assert(partition_terms(194, 18) == 2366022946155);
    lemma_partition_at_49();
    assert(partition_terms(194, 19) == 2366022772630);
    lemma_partition_at_39();
    assert(partition_terms(194, 20) == 2366022741445);
    lemma_partition_at_18();
    assert(partition_terms(194, 21) == 2366022741830);
    lemma_partition_at_7();
    assert(partition_terms(194, 22) == 2366022741845);
}

/// The recurrence at 195.
proof fn lemma_partition_at_195()
    ensures
        partition_number(195) == 2580840212973,
{
    lemma_pentagonal_values();
    lemma_partition_terms_stable(195, 22, 195);
    assert(partition_terms(195, 0) == 0);
    lemma_partition_at_194();
    assert(partition_terms(195, 1) == 2366022741845);
    lemma_partition_at_193();
    assert(partition_terms(195, 2) == 4534649847314);
    lemma_partition_at_190();
    assert(partition_terms(195, 3) == 2866922443221);
    lemma_partition_at_188();
    assert(partition_terms(195, 4) == 1468580697650);
    lemma_partition_at_183();
    assert(partition_terms(195, 5) == 2365265515177);
    lemma_partition_at_180();
    assert(partition_terms(195, 6) == 3050222906113);
    lemma_partition_at_173();
    assert(partition_terms(195, 7) == 2687896046218);
    lemma_partition_at_169();
    assert(partition_terms(195, 8) == 2437457121103);
    lemma_partition_at_160();
    assert(partition_terms(195, 9) == 2544895280569);
    lemma_partition_at_155();
    assert(partition_terms(195, 10) == 2611388462666);
    lemma_partition_at_144();
    assert(partition_terms(195, 11) == 2588847808221);
    lemma_partition_at_138();
    assert(partition_terms(195, 12) == 2576555466390);
    lemma_partition_at_125();
    assert(partition_terms(195, 13) == 2579718593742);
    lemma_partition_at_118();
    assert(partition_terms(195, 14) == 2581200667885);
    lemma_partition_at_103();
    assert(partition_terms(195, 15) == 2580929418935);
    lemma_partition_at_95();
    assert(partition_terms(195, 16) == 2580824767516);
    lemma_partition_at_78();
    assert(partition_terms(195, 17) == 2580836899680);
    lemma_partition_at_69();
    assert(partition_terms(195, 18) == 2580840454025);
    lemma_partition_at_50();
    assert(partition_terms(195, 19) == 2580840249799);
    lemma_partition_at_40();
    assert(partition_terms(195, 20) == 2580840212461);
    lemma_partition_at_19();
    assert(partition_terms(195, 21) == 2580840212951);
    lemma_partition_at_8();
    assert(partition_terms(195, 22) == 2580840212973);
}

/// The recurrence at 196.
proof fn lemma_partition_at_196()
    ensures
        partition_number(196) == 2814570987591,
{
    lemma_pentagonal_values();
    lemma_partition_terms_stable(196, 22, 196);
    assert(partition_terms(196, 0) == 0);
    lemma_partition_at_195();
    assert(partition_terms(196, 1) == 2580840212973);
    lemma_partition_at_194();
    assert(partition_terms(196, 2) == 4946862954818);
    lemma_partition_at_191();
    assert(partition_terms(196, 3) == 3126161854166);
    lemma_partition_at_189();
    assert(partition_terms(196, 4) == 1598888254541);
    lemma_partition_at_184();
    assert(partition_terms(196, 5) == 2579351134971);
    lemma_partition_at_181();
    assert(partition_terms(196, 6) == 3328825546752);
    lemma_partition_at_174();
    assert(partition_terms(196, 7) == 2931700472002);
    lemma_partition_at_170();
    assert(partition_terms(196, 8) == 2656931854872);
    lemma_partition_at_161();
    assert(partition_terms(196, 9) == 2775090923299);
    lemma_partition_at_156();
    assert(partition_terms(196, 10) == 2848323167058);
    lemma_partition_at_145();
    assert(partition_terms(196, 11) == 2823414309049);
    lemma_partition_at_139();
    assert(partition_terms(196, 12) == 2809803359154);
    lemma_partition_at_126();
    assert(partition_terms(196, 13) == 2813322581846);
    lemma_partition_at_119();
    assert(partition_terms(196, 14) == 2814976250511);
    lemma_partition_at_104();
    assert(partition_terms(196, 15) == 2814671449146);
    lemma_partition_at_96();
    assert(partition_terms(196, 16) == 2814553334842);
    lemma_partition_at_79();
    assert(partition_terms(196, 17) == 2814567183492);
    lemma_partition_at_70();
    assert(partition_terms(196, 18) == 2814571271460);
    lemma_partition_at_51();
    assert(partition_terms(196, 19) == 2814571031517);
    lemma_partition_at_41();
    assert(partition_terms(196, 20) == 2814570986934);
    lemma_partition_at_20();
    assert(partition_terms(196, 21) == 2814570987561);
    lemma_partition_at_9();
    assert(partition_terms(196, 22) == 2814570987591);
}

/// The recurrence at 197.
proof fn lemma_partition_at_197()
    ensures
        partition_number(197) == 3068829878530,
{
    lemma_pentagonal_values();
    lemma_partition_terms_stable(197, 22, 197);
    assert(partition_terms(197, 0) == 0);
    lemma_partition_at_196();
    assert(partition_terms(197, 1) == 2814570987591);
    lemma_partition_at_195();
    assert(partition_terms(197, 2) == 5395411200564);
    lemma_partition_at_192();
    assert(partition_terms(197, 3) == 3408134344201);
    lemma_partition_at_190();
    assert(partition_terms(197, 4) == 1740406940108);
    lemma_partition_at_185();
    assert(partition_terms(197, 5) == 2812230714445);
    lemma_partition_at_182();
    assert(partition_terms(197, 6) == 3632107622768);
    lemma_partition_at_175();
    assert(partition_terms(197, 7) == 3196949924938);
    lemma_partition_at_171();
    assert(partition_terms(197, 8) == 2895565122890);
    lemma_partition_at_162();
    assert(partition_terms(197, 9) == 3025479027527);
    lemma_partition_at_157();
    assert(partition_terms(197, 10) == 3106109992296);
    lemma_partition_at_146();
    assert(partition_terms(197, 11) == 3078592939697);
    lemma_partition_at_140();
    assert(partition_terms(197, 12) == 3063527061562);
    lemma_partition_at_127();
    assert(partition_terms(197, 13) == 3067440925857);
    lemma_partition_at_120();
    assert(partition_terms(197, 14) == 3069285275417);
    lemma_partition_at_105();
    assert(partition_terms(197, 15) == 3068942949708);
    lemma_partition_at_97();
    assert(partition_terms(197, 16) == 3068809718778);
    lemma_partition_at_80();
    assert(partition_terms(197, 17) == 3068825515254);
    lemma_partition_at_71();
    assert(partition_terms(197, 18) == 3068830212459);
    lemma_partition_at_52();
    assert(partition_terms(197, 19) == 3068829930870);
    lemma_partition_at_42();
    assert(partition_terms(197, 20) == 3068829877696);
    lemma_partition_at_21();
    assert(partition_terms(197, 21) == 3068829878488);
    lemma_partition_at_10();
    assert(partition_terms(197, 22) == 3068829878530);
}

/// The recurrence at 198.
proof fn lemma_partition_at_198()
    ensures
        partition_number(198) == 3345365983698,
{
    lemma_pentagonal_values();
    lemma_partition_terms_stable(198, 22, 198);
    assert(partition_terms(198, 0) == 0);
    lemma_partition_at_197();
    assert(partition_terms(198, 1) == 3068829878530);
    lemma_partition_at_196();
    assert(partition_terms(198, 2) == 5883400866121);
    lemma_partition_at_193();
    assert(partition_terms(198, 3) == 3714773760652);
    lemma_partition_at_191();
    assert(partition_terms(198, 4) == 1894072660000);
    lemma_partition_at_186();
    assert(partition_terms(198, 5) == 3065505352373);
    lemma_partition_at_183();
    assert(partition_terms(198, 6) == 3962190169900);
    lemma_partition_at_176();
    assert(partition_terms(198, 7) == 3485474312610);
    lemma_partition_at_172();
    assert(partition_terms(198, 8) == 3154978812997);
    lemma_partition_at_163();
    assert(partition_terms(198, 9) == 3297777808927);
    lemma_partition_at_158();
    assert(partition_terms(198, 10) == 3386529587729);
    lemma_partition_at_147();
    assert(partition_terms(198, 11) == 3356140915751);
    lemma_partition_at_141();
    assert(partition_terms(198, 12) == 3339470226543);
    lemma_partition_at_128();
    assert(partition_terms(198, 13) == 3343821305143);
    lemma_partition_at_121();
    assert(partition_terms(198, 14) == 3345877453194);
    lemma_partition_at_106();
    assert(partition_terms(198, 15) == 3345493176858);
    lemma_partition_at_98();
    assert(partition_terms(198, 16) == 3345342978722);
    lemma_partition_at_81();
    assert(partition_terms(198, 17) == 3345360983049);
    lemma_partition_at_72();
    assert(partition_terms(198, 18) == 3345366375832);
    lemma_partition_at_53();
    assert(partition_terms(198, 19) == 3345366045901);
    lemma_partition_at_43();
    assert(partition_terms(198, 20) == 3345365982640);
    lemma_partition_at_22();
    assert(partition_terms(198, 21) == 3345365983642);
    lemma_partition_at_11();
    assert(partition_terms(198, 22) == 3345365983698);
}

/// The recurrence at 199.
proof fn lemma_partition_at_199()
    ensures
        partition_number(199) == 3646072432125,
{
    lemma_pentagonal_values();
    lemma_partition_terms_stable(199, 22, 199);
    assert(partition_terms(199, 0) == 0);
    lemma_partition_at_198();
    assert(partition_terms(199, 1) == 3345365983698);
    lemma_partition_at_197();
    assert(partition_terms(199, 2) == 6414195862228);
    lemma_partition_at_194();
    assert(partition_terms(199, 3) == 4048173120383);
    lemma_partition_at_192();
    assert(partition_terms(199, 4) == 2060896264020);
    lemma_partition_at_187();
    assert(partition_terms(199, 5) == 3340907306288);
    lemma_partition_at_184();
    assert(partition_terms(199, 6) == 4321370186718);
    lemma_partition_at_177();
    assert(partition_terms(199, 7) == 3799254355523);
    lemma_partition_at_173();
    assert(partition_terms(199, 8) == 3436927495628);
    lemma_partition_at_164();
    assert(partition_terms(199, 9) == 3593846970923);
    lemma_partition_at_159();
    assert(partition_terms(199, 10) == 3691509699478);
    lemma_partition_at_148();
    assert(partition_terms(199, 11) == 3657960279981);
    lemma_partition_at_142();
    assert(partition_terms(199, 12) == 3639519986661);
    lemma_partition_at_129();
    assert(partition_terms(199, 13) == 3644355258531);
    lemma_partition_at_122();
    assert(partition_terms(199, 14) == 3646646579443);
    lemma_partition_at_107();
    assert(partition_terms(199, 15) == 3646215430054);
    lemma_partition_at_99();
    assert(partition_terms(199, 16) == 3646046200179);
    lemma_partition_at_82();
    assert(partition_terms(199, 17) == 3646066706434);
    lemma_partition_at_73();
    assert(partition_terms(199, 18) == 3646072892123);
    lemma_partition_at_54();
    assert(partition_terms(199, 19) == 3646072505968);
    lemma_partition_at_44();
    assert(partition_terms(199, 20) == 3646072430793);
    lemma_partition_at_23();
    assert(partition_terms(199, 21) == 3646072432048);
    lemma_partition_at_12();
    assert(partition_terms(199, 22) == 3646072432125);
}

/// The recurrence at 200.
proof fn lemma_partition_at_200()
    ensures
        partition_number(200) == 3972999029388,
{
    lemma_pentagonal_values();
    lemma_partition_terms_stable(200, 22, 200);
    assert(partition_terms(200, 0) == 0);
    lemma_partition_at_199();
    assert(partition_terms(200, 1) == 3646072432125);
    lemma_partition_at_198();
    assert(partition_terms(200, 2) == 6991438415823);
    lemma_partition_at_195();
    assert(partition_terms(200, 3) == 4410598202850);
    lemma_partition_at_193();
    assert(partition_terms(200, 4) == 2241971097381);
    lemma_partition_at_188();
    assert(partition_terms(200, 5) == 3640312842952);
    lemma_partition_at_185();
    assert(partition_terms(200, 6) == 4712136617289);
    lemma_partition_at_178();
    assert(partition_terms(200, 7) == 4140435011634);
    lemma_partition_at_174();
    assert(partition_terms(200, 8) == 3743309936884);
    lemma_partition_at_165();
    assert(partition_terms(200, 9) == 3915699737139);
    lemma_partition_at_160();
    assert(partition_terms(200, 10) == 4023137896605);
    lemma_partition_at_149();
    assert(partition_terms(200, 11) == 3986110541405);
    lemma_partition_at_143();
    assert(partition_terms(200, 12) == 3965719558648);
    lemma_partition_at_130();
    assert(partition_terms(200, 13) == 3971090874048);
    lemma_partition_at_123();
    assert(partition_terms(200, 14) == 3973643212289);
    lemma_partition_at_108();
    assert(partition_terms(200, 15) == 3973159709445);
    lemma_partition_at_100();
    assert(partition_terms(200, 16) == 3972969140153);
    lemma_partition_at_83();
    assert(partition_terms(200, 17) == 3972992478622);
    lemma_partition_at_74();
    assert(partition_terms(200, 18) == 3972999568122);
    lemma_partition_at_55();
    assert(partition_terms(200, 19) == 3972999116846);
    lemma_partition_at_45();
    assert(partition_terms(200, 20) == 3972999027712);
    lemma_partition_at_24();
    assert(partition_terms(200, 21) == 3972999029287);
    lemma_partition_at_13();
    assert(partition_terms(200, 22) == 3972999029388);
}

/// The recurrence at 201.
proof fn lemma_partition_at_201()
    ensures
        partition_number(201) == 4328363658647,
{
    lemma_pentagonal_values();
    lemma_partition_terms_stable(201, 22, 201);
    assert(partition_terms(201, 0) == 0);
    lemma_partition_at_200();
    assert(partition_terms(201, 1) == 3972999029388);
    lemma_partition_at_199();
    assert(partition_terms(201, 2) == 7619071461513);
    lemma_partition_at_196();
    assert(partition_terms(201, 3) == 4804500473922);
    lemma_partition_at_194();
    assert(partition_terms(201, 4) == 2438477732077);
    lemma_partition_at_189();
    assert(partition_terms(201, 5) == 3965751331702);
    lemma_partition_at_186();
    assert(partition_terms(201, 6) == 5137184024075);
    lemma_partition_at_179();
    assert(partition_terms(201, 7) == 4511337270955);
    lemma_partition_at_175();
    assert(partition_terms(201, 8) == 4076179573125);
    lemma_partition_at_166();
    assert(partition_terms(201, 9) == 4265514395704);
    lemma_partition_at_161();
    assert(partition_terms(201, 10) == 4383673464131);
    lemma_partition_at_150();
    assert(partition_terms(201, 11) == 4342820228818);
    lemma_partition_at_144();
    assert(partition_terms(201, 12) == 4320279574373);
    lemma_partition_at_131();
    assert(partition_terms(201, 13) == 4326244113877);
    lemma_partition_at_124();
    assert(partition_terms(201, 14) == 4329086054377);
    lemma_partition_at_109();
    assert(partition_terms(201, 15) == 4328544108137);
    lemma_partition_at_101();
    assert(partition_terms(201, 16) == 4328329627011);
    lemma_partition_at_84();
    assert(partition_terms(201, 17) == 4328356170671);
    lemma_partition_at_75();
    assert(partition_terms(201, 18) == 4328364288935);
    lemma_partition_at_56();
    assert(partition_terms(201, 19) == 4328363762112);
    lemma_partition_at_46();
    assert(partition_terms(201, 20) == 4328363656554);
    lemma_partition_at_25();
    assert(partition_terms(201, 21) == 4328363658512);
    lemma_partition_at_14();
    assert(partition_terms(201, 22) == 4328363658647);
}

/// The recurrence at 202.
proof fn lemma_partition_at_202()
    ensures
        partition_number(202) == 4714566886083,
{
    lemma_pentagonal_values();
    lemma_partition_terms_stable(202, 22, 202);
    assert(partition_terms(202, 0) == 0);
    lemma_partition_at_201();
    assert(partition_terms(202, 1) == 4328363658647);
    lemma_partition_at_200();
    assert(partition_terms(202, 2) == 8301362688035);
    lemma_partition_at_197();
    assert(partition_terms(202, 3) == 5232532809505);
    lemma_partition_at_195();
    assert(partition_terms(202, 4) == 2651692596532);
    lemma_partition_at_190();
    assert(partition_terms(202, 5) == 4319420000625);
    lemma_partition_at_187();
    assert(partition_terms(202, 6) == 5599431042893);
    lemma_partition_at_180();
    assert(partition_terms(202, 7) == 4914473651957);
    lemma_partition_at_176();
    assert(partition_terms(202, 8) == 4437757794667);
    lemma_partition_at_167();
    assert(partition_terms(202, 9) == 4645648214769);
    lemma_partition_at_162();
    assert(partition_terms(202, 10) == 4775562119406);
    lemma_partition_at_151();
    assert(partition_terms(202, 11) == 4730501494824);
    lemma_partition_at_145();
    assert(partition_terms(202, 12) == 4705592636815);
    lemma_partition_at_132();
    assert(partition_terms(202, 13) == 4712213467704);
    lemma_partition_at_125();
    assert(partition_terms(202, 14) == 4715376595056);
    lemma_partition_at_110();
    assert(partition_terms(202, 15) == 4714769431310);
    lemma_partition_at_102();
    assert(partition_terms(202, 16) == 4714528165931);
    lemma_partition_at_85();
    assert(partition_terms(202, 17) == 4714558333288);
    lemma_partition_at_76();
    assert(partition_terms(202, 18) == 4714567622379);
    lemma_partition_at_57();
    assert(partition_terms(202, 19) == 4714567008225);
    lemma_partition_at_47();
    assert(partition_terms(202, 20) == 4714566883471);
    lemma_partition_at_26();
    assert(partition_terms(202, 21) == 4714566885907);
    lemma_partition_at_15();
    assert(partition_terms(202, 22) == 4714566886083);
}

/// The recurrence at 203.
proof fn lemma_partition_at_203()
    ensures
        partition_number(203) == 5134205287973,
{
    lemma_pentagonal_values();
    lemma_partition_terms_stable(203, 22, 203);
    assert(partition_terms(203, 0) == 0);
    lemma_partition_at_202();
    assert(partition_terms(203, 1) == 4714566886083);
    lemma_partition_at_201();
    assert(partition_terms(203, 2) == 9042930544730);
    lemma_partition_at_198();
    assert(partition_terms(203, 3) == 5697564561032);
    lemma_partition_at_196();
    assert(partition_terms(203, 4) == 2882993573441);
    lemma_partition_at_191();
    assert(partition_terms(203, 5) == 4703694674093);
    lemma_partition_at_188();
    assert(partition_terms(203, 6) == 6102036419664);
    lemma_partition_at_181();
    assert(partition_terms(203, 7) == 5352562007883);
    lemma_partition_at_177();
    assert(partition_terms(203, 8) == 4830446176688);
    lemma_partition_at_168();
    assert(partition_terms(203, 9) == 5058650909439);
    lemma_partition_at_163();
    assert(partition_terms(203, 10) == 5201449905369);
    lemma_partition_at_152();
    assert(partition_terms(203, 11) == 5151763616948);
    lemma_partition_at_146();
    assert(partition_terms(203, 12) == 5124246564349);
    lemma_partition_at_133();
    assert(partition_terms(203, 13) == 5131593193861);
    lemma_partition_at_126();
    assert(partition_terms(203, 14) == 5135112416553);
    lemma_partition_at_111();
    assert(partition_terms(203, 15) == 5134432513350);
    lemma_partition_at_103();
    assert(partition_terms(203, 16) == 5134161264400);
    lemma_partition_at_86();
    assert(partition_terms(203, 17) == 5134195527362);
    lemma_partition_at_77();
    assert(partition_terms(203, 18) == 5134206147225);
    lemma_partition_at_58();
    assert(partition_terms(203, 19) == 5134205432005);
    lemma_partition_at_48();
    assert(partition_terms(203, 20) == 5134205284732);
    lemma_partition_at_27();
    assert(partition_terms(203, 21) == 5134205287742);
    lemma_partition_at_16();
    assert(partition_terms(203, 22) == 5134205287973);
}

/// The recurrence at 204.
proof fn lemma_partition_at_204()
    ensures
        partition_number(204) == 5590088317495,
{
    lemma_pentagonal_values();
    lemma_partition_terms_stable(204, 22, 204);
    assert(partition_terms(204, 0) == 0);
    lemma_partition_at_203();
    assert(partition_terms(204, 1) == 5134205287973);
    lemma_partition_at_202();
    assert(partition_terms(204, 2) == 9848772174056);
    lemma_partition_at_199();
    assert(partition_terms(204, 3) == 6202699741931);
    lemma_partition_at_197();
    assert(partition_terms(204, 4) == 3133869863401);
    lemma_partition_at_192();
    assert(partition_terms(204, 5) == 5121146719764);
    lemma_partition_at_189();
    assert(partition_terms(204, 6) == 6648420319389);
    lemma_partition_at_182();
    assert(partition_terms(204, 7) == 5828543411066);
    lemma_partition_at_178();
    assert(partition_terms(204, 8) == 5256841805411);
    lemma_partition_at_169();
    assert(partition_terms(204, 9) == 5507280730526);
    lemma_partition_at_164();
    assert(partition_terms(204, 10) == 5664200205821);
    lemma_partition_at_153();
    assert(partition_terms(204, 11) == 5609429869497);
    lemma_partition_at_147();
    assert(partition_terms(204, 12) == 5579041197519);
    lemma_partition_at_134();
    assert(partition_terms(204, 13) == 5587190238214);
    lemma_partition_at_127();
    assert(partition_terms(204, 14) == 5591104102509);
    lemma_partition_at_112();
    assert(partition_terms(204, 15) == 5590343100353);
    lemma_partition_at_104();
    assert(partition_terms(204, 16) == 5590038298988);
    lemma_partition_at_87();
    assert(partition_terms(204, 17) == 5590077186661);
    lemma_partition_at_78();
    assert(partition_terms(204, 18) == 5590089318825);
    lemma_partition_at_59();
    assert(partition_terms(204, 19) == 5590088487005);
    lemma_partition_at_49();
    assert(partition_terms(204, 20) == 5590088313480);
    lemma_partition_at_28();
    assert(partition_terms(204, 21) == 5590088317198);
    lemma_partition_at_17();
    assert(partition_terms(204, 22) == 5590088317495);
}

/// The recurrence at 205.
proof fn lemma_partition_at_205()
    ensures
        partition_number(205) == 6085253859260,
{
    lemma_pentagonal_values();
    lemma_partition_terms_stable(205, 22, 205);
    assert(partition_terms(205, 0) == 0);
    lemma_partition_at_204();
    assert(partition_terms(205, 1) == 5590088317495);
    lemma_partition_at_203();
    assert(partition_terms(205, 2) == 10724293605468);
    lemma_partition_at_200();
    assert(partition_terms(205, 3) == 6751294576080);
    lemma_partition_at_198();
    assert(partition_terms(205, 4) == 3405928592382);
    lemma_partition_at_193();
    assert(partition_terms(205, 5) == 5574555697851);
    lemma_partition_at_190();
    assert(partition_terms(205, 6) == 7242283101944);
    lemma_partition_at_183();
    assert(partition_terms(205, 7) == 6345598284417);
    lemma_partition_at_179();
    assert(partition_terms(205, 8) == 5719751531297);
    lemma_partition_at_170();
    assert(partition_terms(205, 9) == 5994520148427);
    lemma_partition_at_165();
    assert(partition_terms(205, 10) == 6166909948682);
    lemma_partition_at_154();
    assert(partition_terms(205, 11) == 6106553275402);
    lemma_partition_at_148();
    assert(partition_terms(205, 12) == 6073003855905);
    lemma_partition_at_135();
    assert(partition_terms(205, 13) == 6082039691981);
    lemma_partition_at_128();
    assert(partition_terms(205, 14) == 6086390770581);
    lemma_partition_at_113();
    assert(partition_terms(205, 15) == 6085539393953);
    lemma_partition_at_105();
    assert(partition_terms(205, 16) == 6085197068244);
    lemma_partition_at_88();
    assert(partition_terms(205, 17) == 6085241176353);
    lemma_partition_at_79();
    assert(partition_terms(205, 18) == 6085255025003);
    lemma_partition_at_60();
    assert(partition_terms(205, 19) == 6085254058536);
    lemma_partition_at_50();
    assert(partition_terms(205, 20) == 6085253854310);
    lemma_partition_at_29();
    assert(partition_terms(205, 21) == 6085253858875);
    lemma_partition_at_18();
    assert(partition_terms(205, 22) == 6085253859260);
}

/// The recurrence at 206.
proof fn lemma_partition_at_206()
    ensures
        partition_number(206) == 6622987708040,
{
    lemma_pentagonal_values();
    lemma_partition_terms_stable(206, 22, 206);
    assert(partition_terms(206, 0) == 0);
    lemma_partition_at_205();
    assert(partition_terms(206, 1) == 6085253859260);
    lemma_partition_at_204();
    assert(partition_terms(206, 2) == 11675342176755);
    lemma_partition_at_201();
    assert(partition_terms(206, 3) == 7346978518108);
    lemma_partition_at_199();
    assert(partition_terms(206, 4) == 3700906085983);
    lemma_partition_at_194();
    assert(partition_terms(206, 5) == 6066928827828);
    lemma_partition_at_191();
    assert(partition_terms(206, 6) == 7887629928480);
    lemma_partition_at_184();
    assert(partition_terms(206, 7) == 6907167048050);
    lemma_partition_at_180();
    assert(partition_terms(206, 8) == 6222209657114);
    lemma_partition_at_171();
    assert(partition_terms(206, 9) == 6523594459162);
    lemma_partition_at_166();
    assert(partition_terms(206, 10) == 6712929281741);
    lemma_partition_at_155();
    assert(partition_terms(206, 11) == 6646436099644);
    lemma_partition_at_149();
    assert(partition_terms(206, 12) == 6609408744444);
    lemma_partition_at_136();
    assert(partition_terms(206, 13) == 6619424326124);
    lemma_partition_at_129();
    assert(partition_terms(206, 14) == 6624259597994);
    lemma_partition_at_114();
    assert(partition_terms(206, 15) == 6623307547329);
    lemma_partition_at_106();
    assert(partition_terms(206, 16) == 6622923270993);
    lemma_partition_at_89();
    assert(partition_terms(206, 17) == 6622973266918);
    lemma_partition_at_80();
    assert(partition_terms(206, 18) == 6622989063394);
    lemma_partition_at_61();
    assert(partition_terms(206, 19) == 6622987941889);
    lemma_partition_at_51();
    assert(partition_terms(206, 20) == 6622987701946);
    lemma_partition_at_30();
    assert(partition_terms(206, 21) == 6622987707550);
    lemma_partition_at_19();
    assert(partition_terms(206, 22) == 6622987708040);
}

/// The recurrence at 207.
proof fn lemma_partition_at_207()
    ensures
        partition_number(207) == 7206841706490,
{
    lemma_pentagonal_values();
    lemma_partition_terms_stable(207, 22, 207);
    assert(partition_terms(207, 0) == 0);
    lemma_partition_at_206();
    assert(partition_terms(207, 1) == 6622987708040);
    lemma_partition_at_205();
    assert(partition_terms(207, 2) == 12708241567300);
    lemma_partition_at_202();
    assert(partition_terms(207, 3) == 7993674681217);
    lemma_partition_at_200();
    assert(partition_terms(207, 4) == 4020675651829);
    lemma_partition_at_195();
    assert(partition_terms(207, 5) == 6601515864802);
    lemma_partition_at_192();
    assert(partition_terms(207, 6) == 8588792721165);
    lemma_partition_at_185();
    assert(partition_terms(207, 7) == 7516968946828);
    lemma_partition_at_181();
    assert(partition_terms(207, 8) == 6767494535047);
    lemma_partition_at_172();
    assert(partition_terms(207, 9) == 7097990034660);
    lemma_partition_at_167();
    assert(partition_terms(207, 10) == 7305880454762);
    lemma_partition_at_156();
    assert(partition_terms(207, 11) == 7232648211003);
    lemma_partition_at_150();
    assert(partition_terms(207, 12) == 7191794975690);
    lemma_partition_at_137();
    assert(partition_terms(207, 13) == 7202892620706);
    lemma_partition_at_130();
    assert(partition_terms(207, 14) == 7208263936106);
    lemma_partition_at_115();
    assert(partition_terms(207, 15) == 7207199791655);
    lemma_partition_at_107();
    assert(partition_terms(207, 16) == 7206768642266);
    lemma_partition_at_90();
    assert(partition_terms(207, 17) == 7206825276439);
    lemma_partition_at_81();
    assert(partition_terms(207, 18) == 7206843280766);
    lemma_partition_at_62();
    assert(partition_terms(207, 19) == 7206841980610);
    lemma_partition_at_52();
    assert(partition_terms(207, 20) == 7206841699021);
    lemma_partition_at_31();
    assert(partition_terms(207, 21) == 7206841705863);
    lemma_partition_at_20();
    assert(partition_terms(207, 22) == 7206841706490);
}

/// The recurrence at 208.
proof fn lemma_partition_at_208()
    ensures
        partition_number(208) == 7840656226137,
{
    lemma_pentagonal_values();
    lemma_partition_terms_stable(208, 22, 208);
    assert(partition_terms(208, 0) == 0);
    lemma_partition_at_207();
    assert(partition_terms(208, 1) == 7206841706490);
    lemma_partition_at_206();
    assert(partition_terms(208, 2) == 13829829414530);
    lemma_partition_at_203();
    assert(partition_terms(208, 3) == 8695624126557);
    lemma_partition_at_201();
    assert(partition_terms(208, 4) == 4367260467910);
    lemma_partition_at_196();
    assert(partition_terms(208, 5) == 7181831455501);
    lemma_partition_at_193();
    assert(partition_terms(208, 6) == 9350458560970);
    lemma_partition_at_186();
    assert(partition_terms(208, 7) == 8179025868597);
    lemma_partition_at_182();
    assert(partition_terms(208, 8) == 7359148960274);
    lemma_partition_at_173();
    assert(partition_terms(208, 9) == 7721475820169);
    lemma_partition_at_168();
    assert(partition_terms(208, 10) == 7949680552920);
    lemma_partition_at_157();
    assert(partition_terms(208, 11) == 7869049588151);
    lemma_partition_at_151();
    assert(partition_terms(208, 12) == 7823988963569);
    lemma_partition_at_138();
    assert(partition_terms(208, 13) == 7836281305400);
    lemma_partition_at_131();
    assert(partition_terms(208, 14) == 7842245844904);
    lemma_partition_at_116();
    assert(partition_terms(208, 15) == 7841056936656);
    lemma_partition_at_108();
    assert(partition_terms(208, 16) == 7840573433812);
    lemma_partition_at_91();
    assert(partition_terms(208, 17) == 7840637546171);
    lemma_partition_at_82();
    assert(partition_terms(208, 18) == 7840658052426);
    lemma_partition_at_63();
    assert(partition_terms(208, 19) == 7840656546927);
    lemma_partition_at_53();
    assert(partition_terms(208, 20) == 7840656216996);
    lemma_partition_at_32();
    assert(partition_terms(208, 21) == 7840656225345);
    lemma_partition_at_21();
    assert(partition_terms(208, 22) == 7840656226137);
}

/// The recurrence at 209.
proof fn lemma_partition_at_209()
    ensures
        partition_number(209) == 8528581302375,
{
    lemma_pentagonal_values();
    lemma_partition_terms_stable(209, 22, 209);
    assert(partition_terms(209, 0) == 0);
    lemma_partition_at_208();
    assert(partition_terms(209, 1) == 7840656226137);
    lemma_partition_at_207();
    assert(partition_terms(209, 2) == 15047497932627);
    lemma_partition_at_204();
    assert(partition_terms(209, 3) == 9457409615132);
    lemma_partition_at_202();
    assert(partition_terms(209, 4) == 4742842729049);
    lemma_partition_at_197();
    assert(partition_terms(209, 5) == 7811672607579);
    lemma_partition_at_194();
    assert(partition_terms(209, 6) == 10177695349424);
    lemma_partition_at_187();
    assert(partition_terms(209, 7) == 8897684307156);
    lemma_partition_at_183();
    assert(partition_terms(209, 8) == 8000999489629);
    lemma_partition_at_174();
    assert(partition_terms(209, 9) == 8398124564379);
    lemma_partition_at_169();
    assert(partition_terms(209, 10) == 8648563489494);
    lemma_partition_at_158();
    assert(partition_terms(209, 11) == 8559811710692);
    lemma_partition_at_152();
    assert(partition_terms(209, 12) == 8510125422271);
    lemma_partition_at_139();
    assert(partition_terms(209, 13) == 8523736372166);
    lemma_partition_at_132();
    assert(partition_terms(209, 14) == 8530357203055);
    lemma_partition_at_117();
    assert(partition_terms(209, 15) == 8529029492979);
    lemma_partition_at_109();
    assert(partition_terms(209, 16) == 8528487546739);
    lemma_partition_at_92();
    assert(partition_terms(209, 17) == 8528560080546);
    lemma_partition_at_83();
    assert(partition_terms(209, 18) == 8528583419015);
    lemma_partition_at_64();
    assert(partition_terms(209, 19) == 8528581677385);
    lemma_partition_at_54();
    assert(partition_terms(209, 20) == 8528581291230);
    lemma_partition_at_33();
    assert(partition_terms(209, 21) == 8528581301373);
    lemma_partition_at_22();
    assert(partition_terms(209, 22) == 8528581302375);
}

/// The recurrence at 210.
proof fn lemma_partition_at_210()
    ensures
        partition_number(210) == 9275102575355,
{
    lemma_pentagonal_values();
    lemma_partition_terms_stable(210, 23, 210);
    assert(partition_terms(210, 0) == 0);
    lemma_partition_at_209();
    assert(partition_terms(210, 1) == 8528581302375);
    lemma_partition_at_208();
    assert(partition_terms(210, 2) == 16369237528512);
    lemma_partition_at_205();
    assert(partition_terms(210, 3) == 10283983669252);
    lemma_partition_at_203();
    assert(partition_terms(210, 4) == 5149778381279);
    lemma_partition_at_198();
    assert(partition_terms(210, 5) == 8495144364977);
    lemma_partition_at_195();
    assert(partition_terms(210, 6) == 11075984577950);
    lemma_partition_at_188();
    assert(partition_terms(210, 7) == 9677642832379);
    lemma_partition_at_184();
    assert(partition_terms(210, 8) == 8697179951949);
    lemma_partition_at_175();
    assert(partition_terms(210, 9) == 9132337649779);
    lemma_partition_at_170();
    assert(partition_terms(210, 10) == 9407106266909);
    lemma_partition_at_159();
    assert(partition_terms(210, 11) == 9309443538354);
    lemma_partition_at_153();
    assert(partition_terms(210, 12) == 9254673202030);
    lemma_partition_at_140();
    assert(partition_terms(210, 13) == 9269739080165);
    lemma_partition_at_133();
    assert(partition_terms(210, 14) == 9277085709677);
    lemma_partition_at_118();
    assert(partition_terms(210, 15) == 9275603635534);
    lemma_partition_at_110();
    assert(partition_terms(210, 16) == 9274996471788);
    lemma_partition_at_93();
    assert(partition_terms(210, 17) == 9275078481965);
    lemma_partition_at_84();
    assert(partition_terms(210, 18) == 9275105025625);
    lemma_partition_at_65();
    assert(partition_terms(210, 19) == 9275103013067);
    lemma_partition_at_55();
    assert(partition_terms(210, 20) == 9275102561791);
    lemma_partition_at_34();
    assert(partition_terms(210, 21) == 9275102574101);
    lemma_partition_at_23();
    assert(partition_terms(210, 22) == 9275102575356);
    lemma_partition_at_0();
    assert(partition_terms(210, 23) == 9275102575355);
}

/// The recurrence at 211.
proof fn lemma_partition_at_211()
    ensures
        partition_number(211) == 10085065885767,
{
    lemma_pentagonal_values();
    lemma_partition_terms_stable(211, 23, 211);
    assert(partition_terms(211, 0) == 0);
    lemma_partition_at_210();
    assert(partition_terms(211, 1) == 9275102575355);
    lemma_partition_at_209();
    assert(partition_terms(211, 2) == 17803683877730);
    lemma_partition_at_206();
    assert(partition_terms(211, 3) == 11180696169690);
    lemma_partition_at_204();
    assert(partition_terms(211, 4) == 5590607852195);
    lemma_partition_at_199();
    assert(partition_terms(211, 5) == 9236680284320);
    lemma_partition_at_196();
    assert(partition_terms(211, 6) == 12051251271911);
    lemma_partition_at_189();
    assert(partition_terms(211, 7) == 10523977672286);
    lemma_partition_at_185();
    assert(partition_terms(211, 8) == 9452153897949);
    lemma_partition_at_176();
    assert(partition_terms(211, 9) == 9928869755239);
    lemma_partition_at_171();
    assert(partition_terms(211, 10) == 10230254557287);
    lemma_partition_at_160();
    assert(partition_terms(211, 11) == 10122816397821);
    lemma_partition_at_154();
    assert(partition_terms(211, 12) == 10062459724541);
    lemma_partition_at_141();
    assert(partition_terms(211, 13) == 10079130413749);
    lemma_partition_at_134();
    assert(partition_terms(211, 14) == 10087279454444);
    lemma_partition_at_119();
    assert(partition_terms(211, 15) == 10085625785779);
    lemma_partition_at_111();
    assert(partition_terms(211, 16) == 10084945882576);
    lemma_partition_at_94();
    assert(partition_terms(211, 17) == 10085038552296);
    lemma_partition_at_85();
    assert(partition_terms(211, 18) == 10085068719653);
    lemma_partition_at_66();
    assert(partition_terms(211, 19) == 10085066396133);
    lemma_partition_at_56();
    assert(partition_terms(211, 20) == 10085065869310);
    lemma_partition_at_35();
    assert(partition_terms(211, 21) == 10085065884193);
    lemma_partition_at_24();
    assert(partition_terms(211, 22) == 10085065885768);
    lemma_partition_at_1();
    assert(partition_terms(211, 23) == 10085065885767);
}

/// The recurrence at 212.
proof fn lemma_partition_at_212()
    ensures
        partition_number(212) == 10963707205259,
{
    lemma_pentagonal_values();
    lemma_partition_terms_stable(212, 23, 212);
    assert(partition_terms(212, 0) == 0);
    lemma_partition_at_211();
    assert(partition_terms(212, 1) == 10085065885767);
    lemma_partition_at_210();
    assert(partition_terms(212, 2) == 19360168461122);
    lemma_partition_at_207();
    assert(partition_terms(212, 3) == 12153326754632);
    lemma_partition_at_205();
    assert(partition_terms(212, 4) == 6068072895372);
    lemma_partition_at_200();
    assert(partition_terms(212, 5) == 10041071924760);
    lemma_partition_at_197();
    assert(partition_terms(212, 6) == 13109901803290);
    lemma_partition_at_190();
    assert(partition_terms(212, 7) == 11442174399197);
    lemma_partition_at_186();
    assert(partition_terms(212, 8) == 10270741706824);
    lemma_partition_at_177();
    assert(partition_terms(212, 9) == 10792857538019);
    lemma_partition_at_172();
    assert(partition_terms(212, 10) == 11123353037632);
    lemma_partition_at_161();
    assert(partition_terms(212, 11) == 11005193969205);
    lemma_partition_at_155();
    assert(partition_terms(212, 12) == 10938700787108);
    lemma_partition_at_142();
    assert(partition_terms(212, 13) == 10957141080428);
    lemma_partition_at_135();
    assert(partition_terms(212, 14) == 10966176916504);
    lemma_partition_at_120();
    assert(partition_terms(212, 15) == 10964332566944);
    lemma_partition_at_112();
    assert(partition_terms(212, 16) == 10963571564788);
    lemma_partition_at_95();
    assert(partition_terms(212, 17) == 10963676216207);
    lemma_partition_at_86();
    assert(partition_terms(212, 18) == 10963710479169);
    lemma_partition_at_67();
    assert(partition_terms(212, 19) == 10963707799480);
    lemma_partition_at_57();
    assert(partition_terms(212, 20) == 10963707185326);
    lemma_partition_at_36();
    assert(partition_terms(212, 21) == 10963707203303);
    lemma_partition_at_25();
    assert(partition_terms(212, 22) == 10963707205261);
    lemma_partition_at_2();
    assert(partition_terms(212, 23) == 10963707205259);
}

/// The recurrence at 213.
proof fn lemma_partition_at_213()
    ensures
        partition_number(213) == 11916681236278,
{
    lemma_pentagonal_values();
    lemma_partition_terms_stable(213, 23, 213);
    assert(partition_terms(213, 0) == 0);
    lemma_partition_at_212();
    assert(partition_terms(213, 1) == 10963707205259);
    lemma_partition_at_211();
    assert(partition_terms(213, 2) == 21048773091026);
    lemma_partition_at_208();
    assert(partition_terms(213, 3) == 13208116864889);
    lemma_partition_at_206();
    assert(partition_terms(213, 4) == 6585129156849);
    lemma_partition_at_201();
    assert(partition_terms(213, 5) == 10913492815496);
    lemma_partition_at_198();
    assert(partition_terms(213, 6) == 14258858799194);
    lemma_partition_at_191();
    assert(partition_terms(213, 7) == 12438157698542);
    lemma_partition_at_187();
    assert(partition_terms(213, 8) == 11158146656274);
    lemma_partition_at_178();
    assert(partition_terms(213, 9) == 11729848261929);
    lemma_partition_at_173();
    assert(partition_terms(213, 10) == 12092175121824);
    lemma_partition_at_162();
    assert(partition_terms(213, 11) == 11962261217187);
    lemma_partition_at_156();
    assert(partition_terms(213, 12) == 11889028973428);
    lemma_partition_at_143();
    assert(partition_terms(213, 13) == 11909419956185);
    lemma_partition_at_136();
    assert(partition_terms(213, 14) == 11919435537865);
    lemma_partition_at_121();
    assert(partition_terms(213, 15) == 11917379389814);
    lemma_partition_at_113();
    assert(partition_terms(213, 16) == 11916528013186);
    lemma_partition_at_96();
    assert(partition_terms(213, 17) == 11916646127490);
    lemma_partition_at_87();
    assert(partition_terms(213, 18) == 11916685015163);
    lemma_partition_at_68();
    assert(partition_terms(213, 19) == 11916681927428);
    lemma_partition_at_58();
    assert(partition_terms(213, 20) == 11916681212208);
    lemma_partition_at_37();
    assert(partition_terms(213, 21) == 11916681233845);
    lemma_partition_at_26();
    assert(partition_terms(213, 22) == 11916681236281);
    lemma_partition_at_3();
    assert(partition_terms(213, 23) == 11916681236278);
}

/// The recurrence at 214.
proof fn lemma_partition_at_214()
    ensures
        partition_number(214) == 12950095925895,
{
    lemma_pentagonal_values();
    lemma_partition_terms_stable(214, 23, 214);
    assert(partition_terms(214, 0) == 0);
    lemma_partition_at_213();
    assert(partition_terms(214, 1) == 11916681236278);
    lemma_partition_at_212();
    assert(partition_terms(214, 2) == 22880388441537);
    lemma_partition_at_209();
    assert(partition_terms(214, 3) == 14351807139162);
    lemma_partition_at_207();
    assert(partition_terms(214, 4) == 7144965432672);
    lemma_partition_at_202();
    assert(partition_terms(214, 5) == 11859532318755);
    lemma_partition_at_199();
    assert(partition_terms(214, 6) == 15505604750880);
    lemma_partition_at_192();
    assert(partition_terms(214, 7) == 13518327894517);
    lemma_partition_at_188();
    assert(partition_terms(214, 8) == 12119986148946);
    lemma_partition_at_179();
    assert(partition_terms(214, 9) == 12745832902066);
    lemma_partition_at_174();
    assert(partition_terms(214, 10) == 13142957976816);
    lemma_partition_at_163();
    assert(partition_terms(214, 11) == 13000158980886);
    lemma_partition_at_157();
    assert(partition_terms(214, 12) == 12919528016117);
    lemma_partition_at_144();
    assert(partition_terms(214, 13) == 12942068670562);
    lemma_partition_at_137();
    assert(partition_terms(214, 14) == 12953166315578);
    lemma_partition_at_122();
    assert(partition_terms(214, 15) == 12950874994666);
    lemma_partition_at_114();
    assert(partition_terms(214, 16) == 12949922944001);
    lemma_partition_at_97();
    assert(partition_terms(214, 17) == 12950056174931);
    lemma_partition_at_88();
    assert(partition_terms(214, 18) == 12950100283040);
    lemma_partition_at_69();
    assert(partition_terms(214, 19) == 12950096728695);
    lemma_partition_at_59();
    assert(partition_terms(214, 20) == 12950095896875);
    lemma_partition_at_38();
    assert(partition_terms(214, 21) == 12950095922890);
    lemma_partition_at_27();
    assert(partition_terms(214, 22) == 12950095925900);
    lemma_partition_at_4();
    assert(partition_terms(214, 23) == 12950095925895);
}

/// The recurrence at 215.
proof fn lemma_partition_at_215()
    ensures
        partition_number(215) == 14070545699287,
{
    lemma_pentagonal_values();
    lemma_partition_terms_stable(215, 23, 215);
    assert(partition_terms(215, 0) == 0);
    lemma_partition_at_214();
    assert(partition_terms(215, 1) == 12950095925895);
    lemma_partition_at_213();
    assert(partition_terms(215, 2) == 24866777162173);
    lemma_partition_at_210();
    assert(partition_terms(215, 3) == 15591674586818);
    lemma_partition_at_208();
    assert(partition_terms(215, 4) == 7751018360681);
    lemma_partition_at_203();
    assert(partition_terms(215, 5) == 12885223648654);
    lemma_partition_at_200();
    assert(partition_terms(215, 6) == 16858222678042);
    lemma_partition_at_193();
    assert(partition_terms(215, 7) == 14689595572573);
    lemma_partition_at_189();
    assert(partition_terms(215, 8) == 13162321972948);
    lemma_partition_at_180();
    assert(partition_terms(215, 9) == 13847279363884);
    lemma_partition_at_175();
    assert(partition_terms(215, 10) == 14282437061714);
    lemma_partition_at_164();
    assert(partition_terms(215, 11) == 14125517586419);
    lemma_partition_at_158();
    assert(partition_terms(215, 12) == 14036765807617);
    lemma_partition_at_145();
    assert(partition_terms(215, 13) == 14061674665626);
    lemma_partition_at_138();
    assert(partition_terms(215, 14) == 14073967007457);
    lemma_partition_at_123();
    assert(partition_terms(215, 15) == 14071414669216);
    lemma_partition_at_115();
    assert(partition_terms(215, 16) == 14070350524765);
    lemma_partition_at_98();
    assert(partition_terms(215, 17) == 14070500722901);
    lemma_partition_at_89();
    assert(partition_terms(215, 18) == 14070550718826);
    lemma_partition_at_70();
    assert(partition_terms(215, 19) == 14070546630858);
    lemma_partition_at_60();
    assert(partition_terms(215, 20) == 14070545664391);
    lemma_partition_at_39();
    assert(partition_terms(215, 21) == 14070545695576);
    lemma_partition_at_28();
    assert(partition_terms(215, 22) == 14070545699294);
    lemma_partition_at_5();
    assert(partition_terms(215, 23) == 14070545699287);
}

/// The recurrence at 216.
proof fn lemma_partition_at_216()
    ensures
        partition_number(216) == 15285151248481,
{
    lemma_pentagonal_values();
    lemma_partition_terms_stable(216, 23, 216);
    assert(partition_terms(216, 0) == 0);
    lemma_partition_at_215();
    assert(partition_terms(216, 1) == 14070545699287);
    lemma_partition_at_214();
    assert(partition_terms(216, 2) == 27020641625182);
    lemma_partition_at_211();
    assert(partition_terms(216, 3) == 16935575739415);
    lemma_partition_at_209();
    assert(partition_terms(216, 4) == 8406994437040);
    lemma_partition_at_204();
    assert(partition_terms(216, 5) == 13997082754535);
    lemma_partition_at_201();
    assert(partition_terms(216, 6) == 18325446413182);
    lemma_partition_at_194();
    assert(partition_terms(216, 7) == 15959423671337);
    lemma_partition_at_190();
    assert(partition_terms(216, 8) == 14291696267244);
    lemma_partition_at_181();
    assert(partition_terms(216, 9) == 15041170679025);
    lemma_partition_at_176();
    assert(partition_terms(216, 10) == 15517886536315);
    lemma_partition_at_165();
    assert(partition_terms(216, 11) == 15345496736060);
    lemma_partition_at_159();
    assert(partition_terms(216, 12) == 15247834007505);
    lemma_partition_at_146();
    assert(partition_terms(216, 13) == 15275351060104);
    lemma_partition_at_139();
    assert(partition_terms(216, 14) == 15288962009999);
    lemma_partition_at_124();
    assert(partition_terms(216, 15) == 15286120069499);
    lemma_partition_at_116();
    assert(partition_terms(216, 16) == 15284931161251);
    lemma_partition_at_99();
    assert(partition_terms(216, 17) == 15285100391126);
    lemma_partition_at_90();
    assert(partition_terms(216, 18) == 15285157025299);
    lemma_partition_at_71();
    assert(partition_terms(216, 19) == 15285152328094);
    lemma_partition_at_61();
    assert(partition_terms(216, 20) == 15285151206589);
    lemma_partition_at_40();
    assert(partition_terms(216, 21) == 15285151243927);
    lemma_partition_at_29();
    assert(partition_terms(216, 22) == 15285151248492);
    lemma_partition_at_6();
    assert(partition_terms(216, 23) == 15285151248481);
}

/// The recurrence at 217.
proof fn lemma_partition_at_217()
    ensures
        partition_number(217) == 16601598107914,
{
    lemma_pentagonal_values();
    lemma_partition_terms_stable(217, 23, 217);
    assert(partition_terms(217, 0) == 0);
    lemma_partition_at_216();
    assert(partition_terms(217, 1) == 15285151248481);
    lemma_partition_at_215();
    assert(partition_terms(217, 2) == 29355696947768);
    lemma_partition_at_212();
    assert(partition_terms(217, 3) == 18391989742509);
    lemma_partition_at_210();
    assert(partition_terms(217, 4) == 9116887167154);
    lemma_partition_at_205();
    assert(partition_terms(217, 5) == 15202141026414);
    lemma_partition_at_202();
    assert(partition_terms(217, 6) == 19916707912497);
    lemma_partition_at_195();
    assert(partition_terms(217, 7) == 17335867699524);
    lemma_partition_at_191();
    assert(partition_terms(217, 8) == 15515166598872);
    lemma_partition_at_182();
    assert(partition_terms(217, 9) == 16335043507195);
    lemma_partition_at_177();
    assert(partition_terms(217, 10) == 16857159338390);
    lemma_partition_at_166();
    assert(partition_terms(217, 11) == 16667824515811);
    lemma_partition_at_160();
    assert(partition_terms(217, 12) == 16560386356345);
    lemma_partition_at_147();
    assert(partition_terms(217, 13) == 16590775028323);
    lemma_partition_at_140();
    assert(partition_terms(217, 14) == 16605840906458);
    lemma_partition_at_125();
    assert(partition_terms(217, 15) == 16602677779106);
    lemma_partition_at_117();
    assert(partition_terms(217, 16) == 16601350069030);
    lemma_partition_at_100();
    assert(partition_terms(217, 17) == 16601540638322);
    lemma_partition_at_91();
    assert(partition_terms(217, 18) == 16601604750681);
    lemma_partition_at_72();
    assert(partition_terms(217, 19) == 16601599357898);
    lemma_partition_at_62();
    assert(partition_terms(217, 20) == 16601598057742);
    lemma_partition_at_41();
    assert(partition_terms(217, 21) == 16601598102325);
    lemma_partition_at_30();
    assert(partition_terms(217, 22) == 16601598107929);
    lemma_partition_at_7();
    assert(partition_terms(217, 23) == 16601598107914);
}

/// The recurrence at 218.
proof fn lemma_partition_at_218()
    ensures
        partition_number(218) == 18028182516671,
{
    lemma_pentagonal_values();
    lemma_partition_terms_stable(218, 23, 218);
    assert(partition_terms(218, 0) == 0);
    lemma_partition_at_217();
    assert(partition_terms(218, 1) == 16601598107914);
    lemma_partition_at_216();
    assert(partition_terms(218, 2) == 31886749356395);
    lemma_partition_at_213();
    assert(partition_terms(218, 3) == 19970068120117);
    lemma_partition_at_211();
    assert(partition_terms(218, 4) == 9885002234350);
    lemma_partition_at_206();
    assert(partition_terms(218, 5) == 16507989942390);
    lemma_partition_at_203();
    assert(partition_terms(218, 6) == 21642195230363);
    lemma_partition_at_196();
    assert(partition_terms(218, 7) == 18827624242772);
    lemma_partition_at_192();
    assert(partition_terms(218, 8) == 16840347386409);
    lemma_partition_at_183();
    assert(partition_terms(218, 9) == 17737032203936);
    lemma_partition_at_178();
    assert(partition_terms(218, 10) == 18308733809591);
    lemma_partition_at_167();
    assert(partition_terms(218, 11) == 18100843389489);
    lemma_partition_at_161();
    assert(partition_terms(218, 12) == 17982684321062);
    lemma_partition_at_148();
    assert(partition_terms(218, 13) == 18016233740559);
    lemma_partition_at_141();
    assert(partition_terms(218, 14) == 18032904429767);
    lemma_partition_at_126();
    assert(partition_terms(218, 15) == 18029385207075);
    lemma_partition_at_118();
    assert(partition_terms(218, 16) == 18027903132932);
    lemma_partition_at_101();
    assert(partition_terms(218, 17) == 18028117614058);
    lemma_partition_at_92();
    assert(partition_terms(218, 18) == 18028190147865);
    lemma_partition_at_73();
    assert(partition_terms(218, 19) == 18028183962176);
    lemma_partition_at_63();
    assert(partition_terms(218, 20) == 18028182456677);
    lemma_partition_at_42();
    assert(partition_terms(218, 21) == 18028182509851);
    lemma_partition_at_31();
    assert(partition_terms(218, 22) == 18028182516693);
    lemma_partition_at_8();
    assert(partition_terms(218, 23) == 18028182516671);
}

/// The recurrence at 219.
proof fn lemma_partition_at_219()
    ensures
        partition_number(219) == 19573856161145,
{
    lemma_pentagonal_values();
    lemma_partition_terms_stable(219, 23, 219);
    assert(partition_terms(219, 0) == 0);
    lemma_partition_at_218();
    assert(partition_terms(219, 1) == 18028182516671);
    lemma_partition_at_217();
    assert(partition_terms(219, 2) == 34629780624585);
    lemma_partition_at_214();
    assert(partition_terms(219, 3) == 21679684698690);
    lemma_partition_at_212();
    assert(partition_terms(219, 4) == 10715977493431);
    lemma_partition_at_207();
    assert(partition_terms(219, 5) == 17922819199921);
    lemma_partition_at_204();
    assert(partition_terms(219, 6) == 23512907517416);
    lemma_partition_at_197();
    assert(partition_terms(219, 7) == 20444077638886);
    lemma_partition_at_193();
    assert(partition_terms(219, 8) == 18275450533417);
    lemma_partition_at_184();
    assert(partition_terms(219, 9) == 19255913413847);
    lemma_partition_at_179();
    assert(partition_terms(219, 10) == 19881760166967);
    lemma_partition_at_168();
    assert(partition_terms(219, 11) == 19653555434216);
    lemma_partition_at_162();
    assert(partition_terms(219, 12) == 19523641529579);
    lemma_partition_at_149();
    assert(partition_terms(219, 13) == 19560668884779);
    lemma_partition_at_142();
    assert(partition_terms(219, 14) == 19579109178099);
    lemma_partition_at_127();
    assert(partition_terms(219, 15) == 19575195313804);
    lemma_partition_at_119();
    assert(partition_terms(219, 16) == 19573541645139);
    lemma_partition_at_102();
    assert(partition_terms(219, 17) == 19573782910518);
    lemma_partition_at_93();
    assert(partition_terms(219, 18) == 19573864920695);
    lemma_partition_at_74();
    assert(partition_terms(219, 19) == 19573857831195);
    lemma_partition_at_64();
    assert(partition_terms(219, 20) == 19573856089565);
    lemma_partition_at_43();
    assert(partition_terms(219, 21) == 19573856152826);
    lemma_partition_at_32();
    assert(partition_terms(219, 22) == 19573856161175);
    lemma_partition_at_9();
    assert(partition_terms(219, 23) == 19573856161145);
}

/// The recurrence at 220.
proof fn lemma_partition_at_220()
    ensures
        partition_number(220) == 21248279009367,
{
    lemma_pentagonal_values();
    lemma_partition_terms_stable(220, 23, 220);
    assert(partition_terms(220, 0) == 0);
    lemma_partition_at_219();
    assert(partition_terms(220, 1) == 19573856161145);
    lemma_partition_at_218();
    assert(partition_terms(220, 2) == 37602038677816);
    lemma_partition_at_215();
    assert(partition_terms(220, 3) == 23531492978529);
    lemma_partition_at_213();
    assert(partition_terms(220, 4) == 11614811742251);
    lemma_partition_at_208();
    assert(partition_terms(220, 5) == 19455467968388);
    lemma_partition_at_205();
    assert(partition_terms(220, 6) == 25540721827648);
    lemma_partition_at_198();
    assert(partition_terms(220, 7) == 22195355843950);
    lemma_partition_at_194();
    assert(partition_terms(220, 8) == 19829333102105);
    lemma_partition_at_185();
    assert(partition_terms(220, 9) == 20901156876442);
    lemma_partition_at_180();
    assert(partition_terms(220, 10) == 21586114267378);
    lemma_partition_at_169();
    assert(partition_terms(220, 11) == 21335675342263);
    lemma_partition_at_163();
    assert(partition_terms(220, 12) == 21192876346333);
    lemma_partition_at_150();
    assert(partition_terms(220, 13) == 21233729581646);
    lemma_partition_at_143();
    assert(partition_terms(220, 14) == 21254120564403);
    lemma_partition_at_128();
    assert(partition_terms(220, 15) == 21249769485803);
    lemma_partition_at_120();
    assert(partition_terms(220, 16) == 21247925136243);
    lemma_partition_at_103();
    assert(partition_terms(220, 17) == 21248196385193);
    lemma_partition_at_94();
    assert(partition_terms(220, 18) == 21248289054913);
    lemma_partition_at_75();
    assert(partition_terms(220, 19) == 21248280936649);
    lemma_partition_at_65();
    assert(partition_terms(220, 20) == 21248278924091);
    lemma_partition_at_44();
    assert(partition_terms(220, 21) == 21248278999266);
    lemma_partition_at_33();
    assert(partition_terms(220, 22) == 21248279009409);
    lemma_partition_at_10();
    assert(partition_terms(220, 23) == 21248279009367);
}

/// The recurrence at 221.
proof fn lemma_partition_at_221()
    ensures
        partition_number(221) == 23061871173849,
{
    lemma_pentagonal_values();
    lemma_partition_terms_stable(221, 23, 221);
    assert(partition_terms(221, 0) == 0);
    lemma_partition_at_220();
    assert(partition_terms(221, 1) == 21248279009367);
    lemma_partition_at_219();
    assert(partition_terms(221, 2) == 40822135170512);
    lemma_partition_at_216();
    assert(partition_terms(221, 3) == 25536983922031);
    lemma_partition_at_214();
    assert(partition_terms(221, 4) == 12586887996136);
    lemma_partition_at_209();
    assert(partition_terms(221, 5) == 21115469298511);
    lemma_partition_at_206();
    assert(partition_terms(221, 6) == 27738457006551);
    lemma_partition_at_199();
    assert(partition_terms(221, 7) == 24092384574426);
    lemma_partition_at_195();
    assert(partition_terms(221, 8) == 21511544361453);
    lemma_partition_at_186();
    assert(partition_terms(221, 9) == 22682977053826);
    lemma_partition_at_181();
    assert(partition_terms(221, 10) == 23432451465607);
    lemma_partition_at_170();
    assert(partition_terms(221, 11) == 23157682848477);
    lemma_partition_at_164();
    assert(partition_terms(221, 12) == 23000763373182);
    lemma_partition_at_151();
    assert(partition_terms(221, 13) == 23045823997764);
    lemma_partition_at_144();
    assert(partition_terms(221, 14) == 23068364652209);
    lemma_partition_at_129();
    assert(partition_terms(221, 15) == 23063529380339);
    lemma_partition_at_121();
    assert(partition_terms(221, 16) == 23061473232288);
    lemma_partition_at_104();
    assert(partition_terms(221, 17) == 23061778033653);
    lemma_partition_at_95();
    assert(partition_terms(221, 18) == 23061882685072);
    lemma_partition_at_76();
    assert(partition_terms(221, 19) == 23061873395981);
    lemma_partition_at_66();
    assert(partition_terms(221, 20) == 23061871072461);
    lemma_partition_at_45();
    assert(partition_terms(221, 21) == 23061871161595);
    lemma_partition_at_34();
    assert(partition_terms(221, 22) == 23061871173905);
    lemma_partition_at_11();
    assert(partition_terms(221, 23) == 23061871173849);
}

/// The recurrence at 222.
proof fn lemma_partition_at_222()
    ensures
        partition_number(222) == 25025873760111,
{
    lemma_pentagonal_values();
    lemma_partition_terms_stable(222, 24, 222);
    assert(partition_terms(222, 0) == 0);
    lemma_partition_at_221();
    assert(partition_terms(222, 1) == 23061871173849);
    lemma_partition_at_220();
    assert(partition_terms(222, 2) == 44310150183216);
    lemma_partition_at_217();
    assert(partition_terms(222, 3) == 27708552075302);
    lemma_partition_at_215();
    assert(partition_terms(222, 4) == 13638006376015);
    lemma_partition_at_210();
    assert(partition_terms(222, 5) == 22913108951370);
    lemma_partition_at_207();
    assert(partition_terms(222, 6) == 30119950657860);
    lemma_partition_at_200();
    assert(partition_terms(222, 7) == 26146951628472);
    lemma_partition_at_196();
    assert(partition_terms(222, 8) == 23332380640881);
    lemma_partition_at_187();
    assert(partition_terms(222, 9) == 24612391683149);
    lemma_partition_at_182();
    assert(partition_terms(222, 10) == 25432268591472);
    lemma_partition_at_171();
    assert(partition_terms(222, 11) == 25130883789424);
    lemma_partition_at_165();
    assert(partition_terms(222, 12) == 24958493989169);
    lemma_partition_at_152();
    assert(partition_terms(222, 13) == 25008180277590);
    lemma_partition_at_145();
    assert(partition_terms(222, 14) == 25033089135599);
    lemma_partition_at_130();
    assert(partition_terms(222, 15) == 25027717820199);
    lemma_partition_at_122();
    assert(partition_terms(222, 16) == 25025426499287);
    lemma_partition_at_105();
    assert(partition_terms(222, 17) == 25025768824996);
    lemma_partition_at_96();
    assert(partition_terms(222, 18) == 25025886939300);
    lemma_partition_at_77();
    assert(partition_terms(222, 19) == 25025876319437);
    lemma_partition_at_67();
    assert(partition_terms(222, 20) == 25025873639748);
    lemma_partition_at_46();
    assert(partition_terms(222, 21) == 25025873745306);
    lemma_partition_at_35();
    assert(partition_terms(222, 22) == 25025873760189);
    lemma_partition_at_12();
    assert(partition_terms(222, 23) == 25025873760112);
    lemma_partition_at_0();
    assert(partition_terms(222, 24) == 25025873760111);
}

/// The recurrence at 223.
proof fn lemma_partition_at_223()
    ensures
        partition_number(223) == 27152408925615,
{
    lemma_pentagonal_values();
    lemma_partition_terms_stable(223, 24, 223);
    assert(partition_terms(223, 0) == 0);
    lemma_partition_at_222();
    assert(partition_terms(223, 1) == 25025873760111);
    lemma_partition_at_221();
    assert(partition_terms(223, 2) == 48087744933960);
    lemma_partition_at_218();
    assert(partition_terms(223, 3) == 30059562417289);
    lemma_partition_at_216();
    assert(partition_terms(223, 4) == 14774411168808);
    lemma_partition_at_211();
    assert(partition_terms(223, 5) == 24859477054575);
    lemma_partition_at_208();
    assert(partition_terms(223, 6) == 32700133280712);
    lemma_partition_at_201();
    assert(partition_terms(223, 7) == 28371769622065);
    lemma_partition_at_197();
    assert(partition_terms(223, 8) == 25302939743535);
    lemma_partition_at_188();
    assert(partition_terms(223, 9) == 26701281489106);
    lemma_partition_at_183();
    assert(partition_terms(223, 10) == 27597966306633);
    lemma_partition_at_172();
    assert(partition_terms(223, 11) == 27267470807020);
    lemma_partition_at_166();
    assert(partition_terms(223, 12) == 27078135984441);
    lemma_partition_at_153();
    assert(partition_terms(223, 13) == 27132906320765);
    lemma_partition_at_146();
    assert(partition_terms(223, 14) == 27160423373364);
    lemma_partition_at_131();
    assert(partition_terms(223, 15) == 27154458833860);
    lemma_partition_at_123();
    assert(partition_terms(223, 16) == 27151906495619);
    lemma_partition_at_106();
    assert(partition_terms(223, 17) == 27152290771955);
    lemma_partition_at_97();
    assert(partition_terms(223, 18) == 27152424002885);
    lemma_partition_at_78();
    assert(partition_terms(223, 19) == 27152411870721);
    lemma_partition_at_68();
    assert(partition_terms(223, 20) == 27152408782986);
    lemma_partition_at_47();
    assert(partition_terms(223, 21) == 27152408907740);
    lemma_partition_at_36();
    assert(partition_terms(223, 22) == 27152408925717);
    lemma_partition_at_13();
    assert(partition_terms(223, 23) == 27152408925616);
    lemma_partition_at_1();
    assert(partition_terms(223, 24) == 27152408925615);
}

/// The recurrence at 224.
proof fn lemma_partition_at_224()
    ensures
        partition_number(224) == 29454549941750,
{
    lemma_pentagonal_values();
    lemma_partition_terms_stable(224, 24, 224);
    assert(partition_terms(224, 0) == 0);
    lemma_partition_at_223();
    assert(partition_terms(224, 1) == 27152408925615);
    lemma_partition_at_222();
    assert(partition_terms(224, 2) == 52178282685726);
    lemma_partition_at_219();
    assert(partition_terms(224, 3) == 32604426524581);
    lemma_partition_at_217();
    assert(partition_terms(224, 4) == 16002828416667);
    lemma_partition_at_212();
    assert(partition_terms(224, 5) == 26966535621926);
    lemma_partition_at_209();
    assert(partition_terms(224, 6) == 35495116924301);
    lemma_partition_at_202();
    assert(partition_terms(224, 7) == 30780550038218);
    lemma_partition_at_198();
    assert(partition_terms(224, 8) == 27435184054520);
    lemma_partition_at_189();
    assert(partition_terms(224, 9) == 28962457654145);
    lemma_partition_at_184();
    assert(partition_terms(224, 10) == 29942920534575);
    lemma_partition_at_173();
    assert(partition_terms(224, 11) == 29580593674680);
    lemma_partition_at_167();
    assert(partition_terms(224, 12) == 29372703254578);
    lemma_partition_at_154();
    assert(partition_terms(224, 13) == 29433059927858);
    lemma_partition_at_147();
    assert(partition_terms(224, 14) == 29463448599836);
    lemma_partition_at_132();
    assert(partition_terms(224, 15) == 29456827768947);
    lemma_partition_at_124();
    assert(partition_terms(224, 16) == 29453985828447);
    lemma_partition_at_107();
    assert(partition_terms(224, 17) == 29454416977836);
    lemma_partition_at_98();
    assert(partition_terms(224, 18) == 29454567175972);
    lemma_partition_at_79();
    assert(partition_terms(224, 19) == 29454553327322);
    lemma_partition_at_69();
    assert(partition_terms(224, 20) == 29454549772977);
    lemma_partition_at_48();
    assert(partition_terms(224, 21) == 29454549920250);
    lemma_partition_at_37();
    assert(partition_terms(224, 22) == 29454549941887);
    lemma_partition_at_14();
    assert(partition_terms(224, 23) == 29454549941752);
    lemma_partition_at_2();
    assert(partition_terms(224, 24) == 29454549941750);
}

/// The recurrence at 225.
proof fn lemma_partition_at_225()
    ensures
        partition_number(225) == 31946390696157,
{
    lemma_pentagonal_values();
    lemma_partition_terms_stable(225, 24, 225);
    assert(partition_terms(225, 0) == 0);
    lemma_partition_at_224();
    assert(partition_terms(225, 1) == 29454549941750);
    lemma_partition_at_223();
    assert(partition_terms(225, 2) == 56606958867365);
    lemma_partition_at_220();
    assert(partition_terms(225, 3) == 35358679857998);
    lemma_partition_at_218();
    assert(partition_terms(225, 4) == 17330497341327);
    lemma_partition_at_213();
    assert(partition_terms(225, 5) == 29247178577605);
    lemma_partition_at_210();
    assert(partition_terms(225, 6) == 38522281152960);
    lemma_partition_at_203();
    assert(partition_terms(225, 7) == 33388075864987);
    lemma_partition_at_199();
    assert(partition_terms(225, 8) == 29742003432862);
    lemma_partition_at_190();
    assert(partition_terms(225, 9) == 31409730836955);
    lemma_partition_at_185();
    assert(partition_terms(225, 10) == 32481554611292);
    lemma_partition_at_174();
    assert(partition_terms(225, 11) == 32084429536542);
    lemma_partition_at_168();
    assert(partition_terms(225, 12) == 31856224803791);
    lemma_partition_at_155();
    assert(partition_terms(225, 13) == 31922717985888);
    lemma_partition_at_148();
    assert(partition_terms(225, 14) == 31956267405385);
    lemma_partition_at_133();
    assert(partition_terms(225, 15) == 31948920775873);
    lemma_partition_at_125();
    assert(partition_terms(225, 16) == 31945757648521);
    lemma_partition_at_108();
    assert(partition_terms(225, 17) == 31946241151365);
    lemma_partition_at_99();
    assert(partition_terms(225, 18) == 31946410381240);
    lemma_partition_at_80();
    assert(partition_terms(225, 19) == 31946394584764);
    lemma_partition_at_70();
    assert(partition_terms(225, 20) == 31946390496796);
    lemma_partition_at_49();
    assert(partition_terms(225, 21) == 31946390670321);
    lemma_partition_at_38();
    assert(partition_terms(225, 22) == 31946390696336);
    lemma_partition_at_15();
    assert(partition_terms(225, 23) == 31946390696160);
    lemma_partition_at_3();
    assert(partition_terms(225, 24) == 31946390696157);
}

/// The recurrence at 226.
proof fn lemma_partition_at_226()
    ensures
        partition_number(226) == 34643126322519,
{
    lemma_pentagonal_values();
    lemma_partition_terms_stable(226, 24, 226);
    assert(partition_terms(226, 0) == 0);
    lemma_partition_at_225();
    assert(partition_terms(226, 1) == 31946390696157);
    lemma_partition_at_224();
    assert(partition_terms(226, 2) == 61400940637907);
    lemma_partition_at_221();
    assert(partition_terms(226, 3) == 38339069464058);
    lemma_partition_at_219();
    assert(partition_terms(226, 4) == 18765213302913);
    lemma_partition_at_214();
    assert(partition_terms(226, 5) == 31715309228808);
    lemma_partition_at_211();
    assert(partition_terms(226, 6) == 41800375114575);
    lemma_partition_at_204();
    assert(partition_terms(226, 7) == 36210286797080);
    lemma_partition_at_200();
    assert(partition_terms(226, 8) == 32237287767692);
    lemma_partition_at_191();
    assert(partition_terms(226, 9) == 34057988868344);
    lemma_partition_at_186();
    assert(partition_terms(226, 10) == 35229421560717);
    lemma_partition_at_175();
    assert(partition_terms(226, 11) == 34794263862887);
    lemma_partition_at_169();
    assert(partition_terms(226, 12) == 34543824937772);
    lemma_partition_at_156();
    assert(partition_terms(226, 13) == 34617057181531);
    lemma_partition_at_149();
    assert(partition_terms(226, 14) == 34654084536731);
    lemma_partition_at_134();
    assert(partition_terms(226, 15) == 34645935496036);
    lemma_partition_at_126();
    assert(partition_terms(226, 16) == 34642416273344);
    lemma_partition_at_109();
    assert(partition_terms(226, 17) == 34642958219584);
    lemma_partition_at_100();
    assert(partition_terms(226, 18) == 34643148788876);
    lemma_partition_at_81();
    assert(partition_terms(226, 19) == 34643130784549);
    lemma_partition_at_71();
    assert(partition_terms(226, 20) == 34643126087344);
    lemma_partition_at_50();
    assert(partition_terms(226, 21) == 34643126291570);
    lemma_partition_at_39();
    assert(partition_terms(226, 22) == 34643126322755);
    lemma_partition_at_16();
    assert(partition_terms(226, 23) == 34643126322524);
    lemma_partition_at_4();
    assert(partition_terms(226, 24) == 34643126322519);
}

/// The recurrence at 227.
proof fn lemma_partition_at_227()
    ensures
        partition_number(227) == 37561133582570,
{
    lemma_pentagonal_values();
    lemma_partition_terms_stable(227, 24, 227);
    assert(partition_terms(227, 0) == 0);
    lemma_partition_at_226();
    assert(partition_terms(227, 1) == 34643126322519);
    lemma_partition_at_225();
    assert(partition_terms(227, 2) == 66589517018676);
    lemma_partition_at_222();
    assert(partition_terms(227, 3) == 41563643258565);
    lemma_partition_at_220();
    assert(partition_terms(227, 4) == 20315364249198);
    lemma_partition_at_215();
    assert(partition_terms(227, 5) == 34385909948485);
    lemma_partition_at_212();
    assert(partition_terms(227, 6) == 45349617153744);
    lemma_partition_at_205();
    assert(partition_terms(227, 7) == 39264363294484);
    lemma_partition_at_201();
    assert(partition_terms(227, 8) == 34935999635837);
    lemma_partition_at_192();
    assert(partition_terms(227, 9) == 36923276492200);
    lemma_partition_at_187();
    assert(partition_terms(227, 10) == 38203287534468);
    lemma_partition_at_176();
    assert(partition_terms(227, 11) == 37726571677178);
    lemma_partition_at_170();
    assert(partition_terms(227, 12) == 37451803060048);
    lemma_partition_at_157();
    assert(partition_terms(227, 13) == 37532434024817);
    lemma_partition_at_150();
    assert(partition_terms(227, 14) == 37573287260130);
    lemma_partition_at_135();
    assert(partition_terms(227, 15) == 37564251424054);
    lemma_partition_at_127();
    assert(partition_terms(227, 16) == 37560337559759);
    lemma_partition_at_110();
    assert(partition_terms(227, 17) == 37560944723505);
    lemma_partition_at_101();
    assert(partition_terms(227, 18) == 37561159204631);
    lemma_partition_at_82();
    assert(partition_terms(227, 19) == 37561138698376);
    lemma_partition_at_72();
    assert(partition_terms(227, 20) == 37561133305593);
    lemma_partition_at_51();
    assert(partition_terms(227, 21) == 37561133545536);
    lemma_partition_at_40();
    assert(partition_terms(227, 22) == 37561133582874);
    lemma_partition_at_17();
    assert(partition_terms(227, 23) == 37561133582577);
    lemma_partition_at_5();
    assert(partition_terms(227, 24) == 37561133582570);
}

/// The recurrence at 228.
proof fn lemma_partition_at_228()
    ensures
        partition_number(228) == 40718063627362,
{
    lemma_pentagonal_values();
    lemma_partition_terms_stable(228, 24, 228);
    assert(partition_terms(228, 0) == 0);
    lemma_partition_at_227();
    assert(partition_terms(228, 1) == 37561133582570);
    lemma_partition_at_226();
    assert(partition_terms(228, 2) == 72204259905089);
    lemma_partition_at_223();
    assert(partition_terms(228, 3) == 45051850979474);
    lemma_partition_at_221();
    assert(partition_terms(228, 4) == 21989979805625);
    lemma_partition_at_216();
    assert(partition_terms(228, 5) == 37275131054106);
    lemma_partition_at_213();
    assert(partition_terms(228, 6) == 49191812290384);
    lemma_partition_at_206();
    assert(partition_terms(228, 7) == 42568824582344);
    lemma_partition_at_202();
    assert(partition_terms(228, 8) == 37854257696261);
    lemma_partition_at_193();
    assert(partition_terms(228, 9) == 40022884801730);
    lemma_partition_at_188();
    assert(partition_terms(228, 10) == 41421226547301);
    lemma_partition_at_177();
    assert(partition_terms(228, 11) == 40899110716106);
    lemma_partition_at_171();
    assert(partition_terms(228, 12) == 40597725914058);
    lemma_partition_at_158();
    assert(partition_terms(228, 13) == 40686477692860);
    lemma_partition_at_151();
    assert(partition_terms(228, 14) == 40731538317442);
    lemma_partition_at_136();
    assert(partition_terms(228, 15) == 40721522735762);
    lemma_partition_at_128();
    assert(partition_terms(228, 16) == 40717171657162);
    lemma_partition_at_111();
    assert(partition_terms(228, 17) == 40717851560365);
    lemma_partition_at_102();
    assert(partition_terms(228, 18) == 40718092825744);
    lemma_partition_at_83();
    assert(partition_terms(228, 19) == 40718069487275);
    lemma_partition_at_73();
    assert(partition_terms(228, 20) == 40718063301586);
    lemma_partition_at_52();
    assert(partition_terms(228, 21) == 40718063583175);
    lemma_partition_at_41();
    assert(partition_terms(228, 22) == 40718063627758);
    lemma_partition_at_18();
    assert(partition_terms(228, 23) == 40718063627373);
    lemma_partition_at_6();
    assert(partition_terms(228, 24) == 40718063627362);
}

/// The recurrence at 229.
proof fn lemma_partition_at_229()
    ensures
        partition_number(229) == 44132934884255,
{
    lemma_pentagonal_values();
    lemma_partition_terms_stable(229, 24, 229);
    assert(partition_terms(229, 0) == 0);
    lemma_partition_at_228();
    assert(partition_terms(229, 1) == 40718063627362);
    lemma_partition_at_227();
    assert(partition_terms(229, 2) == 78279197209932);
    lemma_partition_at_224();
    assert(partition_terms(229, 3) == 48824647268182);
    lemma_partition_at_222();
    assert(partition_terms(229, 4) == 23798773508071);
    lemma_partition_at_217();
    assert(partition_terms(229, 5) == 40400371615985);
    lemma_partition_at_214();
    assert(partition_terms(229, 6) == 53350467541880);
    lemma_partition_at_207();
    assert(partition_terms(229, 7) == 46143625835390);
    lemma_partition_at_203();
    assert(partition_terms(229, 8) == 41009420547417);
    lemma_partition_at_194();
    assert(partition_terms(229, 9) == 43375443289262);
    lemma_partition_at_189();
    assert(partition_terms(229, 10) == 44902716888887);
    lemma_partition_at_178();
    assert(partition_terms(229, 11) == 44331015283232);
    lemma_partition_at_172();
    assert(partition_terms(229, 12) == 44000519783619);
    lemma_partition_at_159();
    assert(partition_terms(229, 13) == 44098182512174);
    lemma_partition_at_152();
    assert(partition_terms(229, 14) == 44147868800595);
    lemma_partition_at_137();
    assert(partition_terms(229, 15) == 44136771155579);
    lemma_partition_at_129();
    assert(partition_terms(229, 16) == 44131935883709);
    lemma_partition_at_112();
    assert(partition_terms(229, 17) == 44132696885865);
    lemma_partition_at_103();
    assert(partition_terms(229, 18) == 44132968134815);
    lemma_partition_at_84();
    assert(partition_terms(229, 19) == 44132941591155);
    lemma_partition_at_74();
    assert(partition_terms(229, 20) == 44132934501655);
    lemma_partition_at_53();
    assert(partition_terms(229, 21) == 44132934831586);
    lemma_partition_at_42();
    assert(partition_terms(229, 22) == 44132934884760);
    lemma_partition_at_19();
    assert(partition_terms(229, 23) == 44132934884270);
    lemma_partition_at_7();
    assert(partition_terms(229, 24) == 44132934884255);
}

/// The recurrence at 230.
proof fn lemma_partition_at_230()
    ensures
        partition_number(230) == 47826239745920,
{
    lemma_pentagonal_values();
    lemma_partition_terms_stable(230, 24, 230);
    assert(partition_terms(230, 0) == 0);
    lemma_partition_at_229();
    assert(partition_terms(230, 1) == 44132934884255);
    lemma_partition_at_228();
    assert(partition_terms(230, 2) == 84850998511617);
    lemma_partition_at_225();
    assert(partition_terms(230, 3) == 52904607815460);
    lemma_partition_at_223();
    assert(partition_terms(230, 4) == 25752198889845);
    lemma_partition_at_218();
    assert(partition_terms(230, 5) == 43780381406516);
    lemma_partition_at_215();
    assert(partition_terms(230, 6) == 57850927105803);
    lemma_partition_at_208();
    assert(partition_terms(230, 7) == 50010270879666);
    lemma_partition_at_204();
    assert(partition_terms(230, 8) == 44420182562171);
    lemma_partition_at_195();
    assert(partition_terms(230, 9) == 47001022775144);
    lemma_partition_at_190();
    assert(partition_terms(230, 10) == 48668750179237);
    lemma_partition_at_179();
    assert(partition_terms(230, 11) == 48042903426117);
    lemma_partition_at_173();
    assert(partition_terms(230, 12) == 47680576566222);
    lemma_partition_at_160();
    assert(partition_terms(230, 13) == 47788014725688);
    lemma_partition_at_153();
    assert(partition_terms(230, 14) == 47842785062012);
    lemma_partition_at_138();
    assert(partition_terms(230, 15) == 47830492720181);
    lemma_partition_at_130();
    assert(partition_terms(230, 16) == 47825121404781);
    lemma_partition_at_113();
    assert(partition_terms(230, 17) == 47825972781409);
    lemma_partition_at_104();
    assert(partition_terms(230, 18) == 47826277582774);
    lemma_partition_at_85();
    assert(partition_terms(230, 19) == 47826247415417);
    lemma_partition_at_75();
    assert(partition_terms(230, 20) == 47826239297153);
    lemma_partition_at_54();
    assert(partition_terms(230, 21) == 47826239683308);
    lemma_partition_at_43();
    assert(partition_terms(230, 22) == 47826239746569);
    lemma_partition_at_20();
    assert(partition_terms(230, 23) == 47826239745942);
    lemma_partition_at_8();
    assert(partition_terms(230, 24) == 47826239745920);
}

/// The recurrence at 231.
proof fn lemma_partition_at_231()
    ensures
        partition_number(231) == 51820051838712,
{
    lemma_pentagonal_values();
    lemma_partition_terms_stable(231, 24, 231);
    assert(partition_terms(231, 0) == 0);
    lemma_partition_at_230();
    assert(partition_terms(231, 1) == 47826239745920);
    lemma_partition_at_229();
    assert(partition_terms(231, 2) == 91959174630175);
    lemma_partition_at_226();
    assert(partition_terms(231, 3) == 57316048307656);
    lemma_partition_at_224();
    assert(partition_terms(231, 4) == 27861498365906);
    lemma_partition_at_219();
    assert(partition_terms(231, 5) == 47435354527051);
    lemma_partition_at_216();
    assert(partition_terms(231, 6) == 62720505775532);
    lemma_partition_at_209();
    assert(partition_terms(231, 7) == 54191924473157);
    lemma_partition_at_205();
    assert(partition_terms(231, 8) == 48106670613897);
    lemma_partition_at_196();
    assert(partition_terms(231, 9) == 50921241601488);
    lemma_partition_at_191();
    assert(partition_terms(231, 10) == 52741942702140);
    lemma_partition_at_180();
    assert(partition_terms(231, 11) == 52056985311204);
    lemma_partition_at_174();
    assert(partition_terms(231, 12) == 51659860236454);
    lemma_partition_at_161();
    assert(partition_terms(231, 13) == 51778019304881);
    lemma_partition_at_154();
    assert(partition_terms(231, 14) == 51838375978161);
    lemma_partition_at_139();
    assert(partition_terms(231, 15) == 51824765028266);
    lemma_partition_at_131();
    assert(partition_terms(231, 16) == 51818800488762);
    lemma_partition_at_114();
    assert(partition_terms(231, 17) == 51819752539427);
    lemma_partition_at_105();
    assert(partition_terms(231, 18) == 51820094865136);
    lemma_partition_at_86();
    assert(partition_terms(231, 19) == 51820060602174);
    lemma_partition_at_76();
    assert(partition_terms(231, 20) == 51820051313083);
    lemma_partition_at_55();
    assert(partition_terms(231, 21) == 51820051764359);
    lemma_partition_at_44();
    assert(partition_terms(231, 22) == 51820051839534);
    lemma_partition_at_21();
    assert(partition_terms(231, 23) == 51820051838742);
    lemma_partition_at_9();
    assert(partition_terms(231, 24) == 51820051838712);
}

/// The recurrence at 232.
proof fn lemma_partition_at_232()
    ensures
        partition_number(232) == 56138148670947,
{
    lemma_pentagonal_values();
    lemma_partition_terms_stable(232, 24, 232);
    assert(partition_terms(232, 0) == 0);
    lemma_partition_at_231();
    assert(partition_terms(232, 1) == 51820051838712);
    lemma_partition_at_230();
    assert(partition_terms(232, 2) == 99646291584632);
    lemma_partition_at_227();
    assert(partition_terms(232, 3) == 62085158002062);
    lemma_partition_at_225();
    assert(partition_terms(232, 4) == 30138767305905);
    lemma_partition_at_220();
    assert(partition_terms(232, 5) == 51387046315272);
    lemma_partition_at_217();
    assert(partition_terms(232, 6) == 67988644423186);
    lemma_partition_at_210();
    assert(partition_terms(232, 7) == 58713541847831);
    lemma_partition_at_206();
    assert(partition_terms(232, 8) == 52090554139791);
    lemma_partition_at_197();
    assert(partition_terms(232, 9) == 55159384018321);
    lemma_partition_at_192();
    assert(partition_terms(232, 10) == 57146660874684);
    lemma_partition_at_181();
    assert(partition_terms(232, 11) == 56397186462903);
    lemma_partition_at_175();
    assert(partition_terms(232, 12) == 55962028765073);
    lemma_partition_at_162();
    assert(partition_terms(232, 13) == 56091942669710);
    lemma_partition_at_155();
    assert(partition_terms(232, 14) == 56158435851807);
    lemma_partition_at_140();
    assert(partition_terms(232, 15) == 56143369973672);
    lemma_partition_at_132();
    assert(partition_terms(232, 16) == 56136749142783);
    lemma_partition_at_115();
    assert(partition_terms(232, 17) == 56137813287234);
    lemma_partition_at_106();
    assert(partition_terms(232, 18) == 56138197563570);
    lemma_partition_at_87();
    assert(partition_terms(232, 19) == 56138158675897);
    lemma_partition_at_77();
    assert(partition_terms(232, 20) == 56138148056034);
    lemma_partition_at_56();
    assert(partition_terms(232, 21) == 56138148582857);
    lemma_partition_at_45();
    assert(partition_terms(232, 22) == 56138148671991);
    lemma_partition_at_22();
    assert(partition_terms(232, 23) == 56138148670989);
    lemma_partition_at_10();
    assert(partition_terms(232, 24) == 56138148670947);
}

/// The recurrence at 233.
proof fn lemma_partition_at_233()
    ensures
        partition_number(233) == 60806135438329,
{
    lemma_pentagonal_values();
    lemma_partition_terms_stable(233, 24, 233);
    assert(partition_terms(233, 0) == 0);
    lemma_partition_at_232();
    assert(partition_terms(233, 1) == 56138148670947);
    lemma_partition_at_231();
    assert(partition_terms(233, 2) == 107958200509659);
    lemma_partition_at_228();
    assert(partition_terms(233, 3) == 67240136882297);
    lemma_partition_at_226();
    assert(partition_terms(233, 4) == 32597010559778);
    lemma_partition_at_221();
    assert(partition_terms(233, 5) == 55658881733627);
    lemma_partition_at_218();
    assert(partition_terms(233, 6) == 73687064250298);
    lemma_partition_at_211();
    assert(partition_terms(233, 7) == 63601998364531);
    lemma_partition_at_207();
    assert(partition_terms(233, 8) == 56395156658041);
    lemma_partition_at_198();
    assert(partition_terms(233, 9) == 59740522641739);
    lemma_partition_at_193();
    assert(partition_terms(233, 10) == 61909149747208);
    lemma_partition_at_182();
    assert(partition_terms(233, 11) == 61089272838885);
    lemma_partition_at_176();
    assert(partition_terms(233, 12) == 60612556981595);
    lemma_partition_at_163();
    assert(partition_terms(233, 13) == 60755355977525);
    lemma_partition_at_156();
    assert(partition_terms(233, 14) == 60828588221284);
    lemma_partition_at_141();
    assert(partition_terms(233, 15) == 60811917532076);
    lemma_partition_at_133();
    assert(partition_terms(233, 16) == 60804570902564);
    lemma_partition_at_116();
    assert(partition_terms(233, 17) == 60805759810812);
    lemma_partition_at_107();
    assert(partition_terms(233, 18) == 60806190960201);
    lemma_partition_at_88();
    assert(partition_terms(233, 19) == 60806146852092);
    lemma_partition_at_78();
    assert(partition_terms(233, 20) == 60806134719928);
    lemma_partition_at_57();
    assert(partition_terms(233, 21) == 60806135334082);
    lemma_partition_at_46();
    assert(partition_terms(233, 22) == 60806135439640);
    lemma_partition_at_23();
    assert(partition_terms(233, 23) == 60806135438385);
    lemma_partition_at_11();
    assert(partition_terms(233, 24) == 60806135438329);
}

/// The recurrence at 234.
proof fn lemma_partition_at_234()
    ensures
        partition_number(234) == 65851585970275,
{
    lemma_pentagonal_values();
    lemma_partition_terms_stable(234, 24, 234);
    assert(partition_terms(234, 0) == 0);
    lemma_partition_at_233();
    assert(partition_terms(234, 1) == 60806135438329);
    lemma_partition_at_232();
    assert(partition_terms(234, 2) == 116944284109276);
    lemma_partition_at_229();
    assert(partition_terms(234, 3) == 72811349225021);
    lemma_partition_at_227();
    assert(partition_terms(234, 4) == 35250215642451);
    lemma_partition_at_222();
    assert(partition_terms(234, 5) == 60276089402562);
    lemma_partition_at_219();
    assert(partition_terms(234, 6) == 79849945563707);
    lemma_partition_at_212();
    assert(partition_terms(234, 7) == 68886238358448);
    lemma_partition_at_208();
    assert(partition_terms(234, 8) == 61045582132311);
    lemma_partition_at_199();
    assert(partition_terms(234, 9) == 64691654564436);
    lemma_partition_at_194();
    assert(partition_terms(234, 10) == 67057677306281);
    lemma_partition_at_183();
    assert(partition_terms(234, 11) == 66160992488754);
    lemma_partition_at_177();
    assert(partition_terms(234, 12) == 65638876657559);
    lemma_partition_at_164();
    assert(partition_terms(234, 13) == 65795796132854);
    lemma_partition_at_157();
    assert(partition_terms(234, 14) == 65876427097623);
    lemma_partition_at_142();
    assert(partition_terms(234, 15) == 65857986804303);
    lemma_partition_at_134();
    assert(partition_terms(234, 16) == 65849837763608);
    lemma_partition_at_117();
    assert(partition_terms(234, 17) == 65851165473684);
    lemma_partition_at_108();
    assert(partition_terms(234, 18) == 65851648976528);
    lemma_partition_at_89();
    assert(partition_terms(234, 19) == 65851598980603);
    lemma_partition_at_79();
    assert(partition_terms(234, 20) == 65851585131953);
    lemma_partition_at_58();
    assert(partition_terms(234, 21) == 65851585847173);
    lemma_partition_at_47();
    assert(partition_terms(234, 22) == 65851585971927);
    lemma_partition_at_24();
    assert(partition_terms(234, 23) == 65851585970352);
    lemma_partition_at_12();
    assert(partition_terms(234, 24) == 65851585970275);
}

/// The recurrence at 235.
proof fn lemma_partition_at_235()
    ensures
        partition_number(235) == 71304185514919,
{
    lemma_pentagonal_values();
    lemma_partition_terms_stable(235, 24, 235);
    assert(partition_terms(235, 0) == 0);
    lemma_partition_at_234();
    assert(partition_terms(235, 1) == 65851585970275);
    lemma_partition_at_233();
    assert(partition_terms(235, 2) == 126657721408604);
    lemma_partition_at_230();
    assert(partition_terms(235, 3) == 78831481662684);
    lemma_partition_at_228();
    assert(partition_terms(235, 4) == 38113418035322);
    lemma_partition_at_223();
    assert(partition_terms(235, 5) == 65265826960937);
    lemma_partition_at_220();
    assert(partition_terms(235, 6) == 86514105970304);
    lemma_partition_at_213();
    assert(partition_terms(235, 7) == 74597424734026);
    lemma_partition_at_209();
    assert(partition_terms(235, 8) == 66068843431651);
    lemma_partition_at_200();
    assert(partition_terms(235, 9) == 70041842461039);
    lemma_partition_at_195();
    assert(partition_terms(235, 10) == 72622682674012);
    lemma_partition_at_184();
    assert(partition_terms(235, 11) == 71642219793582);
    lemma_partition_at_178();
    assert(partition_terms(235, 12) == 71070518187927);
    lemma_partition_at_165();
    assert(partition_terms(235, 13) == 71242907988182);
    lemma_partition_at_158();
    assert(partition_terms(235, 14) == 71331659766984);
    lemma_partition_at_143();
    assert(partition_terms(235, 15) == 71311268784227);
    lemma_partition_at_135();
    assert(partition_terms(235, 16) == 71302232948151);
    lemma_partition_at_118();
    assert(partition_terms(235, 17) == 71303715022294);
    lemma_partition_at_109();
    assert(partition_terms(235, 18) == 71304256968534);
    lemma_partition_at_90();
    assert(partition_terms(235, 19) == 71304200334361);
    lemma_partition_at_80();
    assert(partition_terms(235, 20) == 71304184537885);
    lemma_partition_at_59();
    assert(partition_terms(235, 21) == 71304185369705);
    lemma_partition_at_48();
    assert(partition_terms(235, 22) == 71304185516978);
    lemma_partition_at_25();
    assert(partition_terms(235, 23) == 71304185515020);
    lemma_partition_at_13();
    assert(partition_terms(235, 24) == 71304185514919);
}

/// The recurrence at 236.
proof fn lemma_partition_at_236()
    ensures
        partition_number(236) == 77195892663512,
{
    lemma_pentagonal_values();
    lemma_partition_terms_stable(236, 24, 236);
    assert(partition_terms(236, 0) == 0);
    lemma_partition_at_235();
    assert(partition_terms(236, 1) == 71304185514919);
    lemma_partition_at_234();
    assert(partition_terms(236, 2) == 137155771485194);
    lemma_partition_at_231();
    assert(partition_terms(236, 3) == 85335719646482);
    lemma_partition_at_229();
    assert(partition_terms(236, 4) == 41202784762227);
    lemma_partition_at_224();
    assert(partition_terms(236, 5) == 70657334703977);
    lemma_partition_at_221();
    assert(partition_terms(236, 6) == 93719205877826);
    lemma_partition_at_214();
    assert(partition_terms(236, 7) == 80769109951931);
    lemma_partition_at_210();
    assert(partition_terms(236, 8) == 71494007376576);
    lemma_partition_at_201();
    assert(partition_terms(236, 9) == 75822371035223);
    lemma_partition_at_196();
    assert(partition_terms(236, 10) == 78636942022814);
    lemma_partition_at_185();
    assert(partition_terms(236, 11) == 77565118248477);
    lemma_partition_at_179();
    assert(partition_terms(236, 12) == 76939271495357);
    lemma_partition_at_166();
    assert(partition_terms(236, 13) == 77128606317936);
    lemma_partition_at_159();
    assert(partition_terms(236, 14) == 77226269046491);
    lemma_partition_at_144();
    assert(partition_terms(236, 15) == 77203728392046);
    lemma_partition_at_136();
    assert(partition_terms(236, 16) == 77193712810366);
    lemma_partition_at_119();
    assert(partition_terms(236, 17) == 77195366479031);
    lemma_partition_at_110();
    assert(partition_terms(236, 18) == 77195973642777);
    lemma_partition_at_91();
    assert(partition_terms(236, 19) == 77195909530418);
    lemma_partition_at_81();
    assert(partition_terms(236, 20) == 77195891526091);
    lemma_partition_at_60();
    assert(partition_terms(236, 21) == 77195892492558);
    lemma_partition_at_49();
    assert(partition_terms(236, 22) == 77195892666083);
    lemma_partition_at_26();
    assert(partition_terms(236, 23) == 77195892663647);
    lemma_partition_at_14();
    assert(partition_terms(236, 24) == 77195892663512);
}

/// The recurrence at 237.
proof fn lemma_partition_at_237()
    ensures
        partition_number(237) == 83561103925871,
{
    lemma_pentagonal_values();
    lemma_partition_terms_stable(237, 24, 237);
    assert(partition_terms(237, 0) == 0);
    lemma_partition_at_236();
    assert(partition_terms(237, 1) == 77195892663512);
    lemma_partition_at_235();
    assert(partition_terms(237, 2) == 148500078178431);
    lemma_partition_at_232();
    assert(partition_terms(237, 3) == 92361929507484);
    lemma_partition_at_230();
    assert(partition_terms(237, 4) == 44535689761564);
    lemma_partition_at_225();
    assert(partition_terms(237, 5) == 76482080457721);
    lemma_partition_at_222();
    assert(partition_terms(237, 6) == 101507954217832);
    lemma_partition_at_215();
    assert(partition_terms(237, 7) == 87437408518545);
    lemma_partition_at_211();
    assert(partition_terms(237, 8) == 77352342632778);
    lemma_partition_at_202();
    assert(partition_terms(237, 9) == 82066909518861);
    lemma_partition_at_197();
    assert(partition_terms(237, 10) == 85135739397391);
    lemma_partition_at_186();
    assert(partition_terms(237, 11) == 83964306705018);
    lemma_partition_at_180();
    assert(partition_terms(237, 12) == 83279349314082);
    lemma_partition_at_167();
    assert(partition_terms(237, 13) == 83487239734184);
    lemma_partition_at_160();
    assert(partition_terms(237, 14) == 83594677893650);
    lemma_partition_at_145();
    assert(partition_terms(237, 15) == 83569769035641);
    lemma_partition_at_137();
    assert(partition_terms(237, 16) == 83558671390625);
    lemma_partition_at_120();
    assert(partition_terms(237, 17) == 83560515740185);
    lemma_partition_at_111();
    assert(partition_terms(237, 18) == 83561195643388);
    lemma_partition_at_92();
    assert(partition_terms(237, 19) == 83561123109581);
    lemma_partition_at_82();
    assert(partition_terms(237, 20) == 83561102603326);
    lemma_partition_at_61();
    assert(partition_terms(237, 21) == 83561103724831);
    lemma_partition_at_50();
    assert(partition_terms(237, 22) == 83561103929057);
    lemma_partition_at_27();
    assert(partition_terms(237, 23) == 83561103926047);
    lemma_partition_at_15();
    assert(partition_terms(237, 24) == 83561103925871);
}

/// The recurrence at 238.
proof fn lemma_partition_at_238()
    ensures
        partition_number(238) == 90436839668817,
{
    lemma_pentagonal_values();
    lemma_partition_terms_stable(238, 24, 238);
    assert(partition_terms(238, 0) == 0);
    lemma_partition_at_237();
    assert(partition_terms(238, 1) == 83561103925871);
    lemma_partition_at_236();
    assert(partition_terms(238, 2) == 160756996589383);
    lemma_partition_at_233();
    assert(partition_terms(238, 3) == 99950861151054);
    lemma_partition_at_231();
    assert(partition_terms(238, 4) == 48130809312342);
    lemma_partition_at_226();
    assert(partition_terms(238, 5) == 82773935634861);
    lemma_partition_at_223();
    assert(partition_terms(238, 6) == 109926344560476);
    lemma_partition_at_216();
    assert(partition_terms(238, 7) == 94641193311995);
    lemma_partition_at_212();
    assert(partition_terms(238, 8) == 83677486106736);
    lemma_partition_at_203();
    assert(partition_terms(238, 9) == 88811691394709);
    lemma_partition_at_198();
    assert(partition_terms(238, 10) == 92157057378407);
    lemma_partition_at_187();
    assert(partition_terms(238, 11) == 90877046336139);
    lemma_partition_at_181();
    assert(partition_terms(238, 12) == 90127571924358);
    lemma_partition_at_168();
    assert(partition_terms(238, 13) == 90355776657109);
    lemma_partition_at_161();
    assert(partition_terms(238, 14) == 90473935725536);
    lemma_partition_at_146();
    assert(partition_terms(238, 15) == 90446418672937);
    lemma_partition_at_138();
    assert(partition_terms(238, 16) == 90434126331106);
    lemma_partition_at_121();
    assert(partition_terms(238, 17) == 90436182479157);
    lemma_partition_at_112();
    assert(partition_terms(238, 18) == 90436943481313);
    lemma_partition_at_93();
    assert(partition_terms(238, 19) == 90436861471136);
    lemma_partition_at_83();
    assert(partition_terms(238, 20) == 90436838132667);
    lemma_partition_at_62();
    assert(partition_terms(238, 21) == 90436839432823);
    lemma_partition_at_51();
    assert(partition_terms(238, 22) == 90436839672766);
    lemma_partition_at_28();
    assert(partition_terms(238, 23) == 90436839669048);
    lemma_partition_at_16();
    assert(partition_terms(238, 24) == 90436839668817);
}

/// The recurrence at 239.
proof fn lemma_partition_at_239()
    ensures
        partition_number(239) == 97862933703585,
{
    lemma_pentagonal_values();
    lemma_partition_terms_stable(239, 24, 239);
    assert(partition_terms(239, 0) == 0);
    lemma_partition_at_238();
    assert(partition_terms(239, 1) == 90436839668817);
    lemma_partition_at_237();
    assert(partition_terms(239, 2) == 173997943594688);
    lemma_partition_at_234();
    assert(partition_terms(239, 3) == 108146357624413);
    lemma_partition_at_232();
    assert(partition_terms(239, 4) == 52008208953466);
    lemma_partition_at_227();
    assert(partition_terms(239, 5) == 89569342536036);
    lemma_partition_at_224();
    assert(partition_terms(239, 6) == 119023892477786);
    lemma_partition_at_217();
    assert(partition_terms(239, 7) == 102422294369872);
    lemma_partition_at_213();
    assert(partition_terms(239, 8) == 90505613133594);
    lemma_partition_at_204();
    assert(partition_terms(239, 9) == 96095701451089);
    lemma_partition_at_199();
    assert(partition_terms(239, 10) == 99741773883214);
    lemma_partition_at_188();
    assert(partition_terms(239, 11) == 98343432137643);
    lemma_partition_at_182();
    assert(partition_terms(239, 12) == 97523555229320);
    lemma_partition_at_169();
    assert(partition_terms(239, 13) == 97773994154435);
    lemma_partition_at_162();
    assert(partition_terms(239, 14) == 97903908059072);
    lemma_partition_at_147();
    assert(partition_terms(239, 15) == 97873519387094);
    lemma_partition_at_139();
    assert(partition_terms(239, 16) == 97859908437199);
    lemma_partition_at_122();
    assert(partition_terms(239, 17) == 97862199758111);
    lemma_partition_at_113();
    assert(partition_terms(239, 18) == 97863051134739);
    lemma_partition_at_94();
    assert(partition_terms(239, 19) == 97862958465019);
    lemma_partition_at_84();
    assert(partition_terms(239, 20) == 97862931921359);
    lemma_partition_at_63();
    assert(partition_terms(239, 21) == 97862933426858);
    lemma_partition_at_52();
    assert(partition_terms(239, 22) == 97862933708447);
    lemma_partition_at_29();
    assert(partition_terms(239, 23) == 97862933703882);
    lemma_partition_at_17();
    assert(partition_terms(239, 24) == 97862933703585);
}

/// The recurrence at 240.
proof fn lemma_partition_at_240()
    ensures
        partition_number(240) == 105882246722733,
{
    lemma_pentagonal_values();
    lemma_partition_terms_stable(240, 24, 240);
    assert(partition_terms(240, 0) == 0);
    lemma_partition_at_239();
    assert(partition_terms(240, 1) == 97862933703585);
    lemma_partition_at_238();
    assert(partition_terms(240, 2) == 188299773372402);
    lemma_partition_at_235();
    assert(partition_terms(240, 3) == 116995587857483);
    lemma_partition_at_233();
    assert(partition_terms(240, 4) == 56189452419154);
    lemma_partition_at_228();
    assert(partition_terms(240, 5) == 96907516046516);
    lemma_partition_at_225();
    assert(partition_terms(240, 6) == 128853906742673);
    lemma_partition_at_218();
    assert(partition_terms(240, 7) == 110825724226002);
    lemma_partition_at_214();
    assert(partition_terms(240, 8) == 97875628300107);
    lemma_partition_at_205();
    assert(partition_terms(240, 9) == 103960882159367);
    lemma_partition_at_200();
    assert(partition_terms(240, 10) == 107933881188755);
    lemma_partition_at_189();
    assert(partition_terms(240, 11) == 106406607589130);
    lemma_partition_at_183();
    assert(partition_terms(240, 12) == 105509922771603);
    lemma_partition_at_170();
    assert(partition_terms(240, 13) == 105784691388733);
    lemma_partition_at_163();
    assert(partition_terms(240, 14) == 105927490384663);
    lemma_partition_at_148();
    assert(partition_terms(240, 15) == 105893940965166);
    lemma_partition_at_140();
    assert(partition_terms(240, 16) == 105878875087031);
    lemma_partition_at_123();
    assert(partition_terms(240, 17) == 105881427425272);
    lemma_partition_at_114();
    assert(partition_terms(240, 18) == 105882379475937);
    lemma_partition_at_95();
    assert(partition_terms(240, 19) == 105882274824518);
    lemma_partition_at_85();
    assert(partition_terms(240, 20) == 105882244657161);
    lemma_partition_at_64();
    assert(partition_terms(240, 21) == 105882246398791);
    lemma_partition_at_53();
    assert(partition_terms(240, 22) == 105882246728722);
    lemma_partition_at_30();
    assert(partition_terms(240, 23) == 105882246723118);
    lemma_partition_at_18();
    assert(partition_terms(240, 24) == 105882246722733);
}

/// The recurrence at 241.
proof fn lemma_partition_at_241()
    ensures
        partition_number(241) == 114540884553038,
{
    lemma_pentagonal_values();
    lemma_partition_terms_stable(241, 24, 241);
    assert(partition_terms(241, 0) == 0);
    lemma_partition_at_240();
    assert(partition_terms(241, 1) == 105882246722733);
    lemma_partition_at_239();
    assert(partition_terms(241, 2) == 203745180426318);
    lemma_partition_at_236();
    assert(partition_terms(241, 3) == 126549287762806);
    lemma_partition_at_234();
    assert(partition_terms(241, 4) == 60697701792531);
    lemma_partition_at_229();
    assert(partition_terms(241, 5) == 104830636676786);
    lemma_partition_at_226();
    assert(partition_terms(241, 6) == 139473762999305);
    lemma_partition_at_219();
    assert(partition_terms(241, 7) == 119899906838160);
    lemma_partition_at_215();
    assert(partition_terms(241, 8) == 105829361138873);
    lemma_partition_at_206();
    assert(partition_terms(241, 9) == 112452348846913);
    lemma_partition_at_201();
    assert(partition_terms(241, 10) == 116780712505560);
    lemma_partition_at_190();
    assert(partition_terms(241, 11) == 115112985101467);
    lemma_partition_at_184();
    assert(partition_terms(241, 12) == 114132522221037);
    lemma_partition_at_171();
    assert(partition_terms(241, 13) == 114433907023085);
    lemma_partition_at_164();
    assert(partition_terms(241, 14) == 114590826498380);
    lemma_partition_at_149();
    assert(partition_terms(241, 15) == 114553799143180);
    lemma_partition_at_141();
    assert(partition_terms(241, 16) == 114537128453972);
    lemma_partition_at_124();
    assert(partition_terms(241, 17) == 114539970394472);
    lemma_partition_at_115();
    assert(partition_terms(241, 18) == 114541034538923);
    lemma_partition_at_96();
    assert(partition_terms(241, 19) == 114540916424619);
    lemma_partition_at_86();
    assert(partition_terms(241, 20) == 114540882161657);
    lemma_partition_at_65();
    assert(partition_terms(241, 21) == 114540884174215);
    lemma_partition_at_54();
    assert(partition_terms(241, 22) == 114540884560370);
    lemma_partition_at_31();
    assert(partition_terms(241, 23) == 114540884553528);
    lemma_partition_at_19();
    assert(partition_terms(241, 24) == 114540884553038);
}

/// The recurrence at 242.
proof fn lemma_partition_at_242()
    ensures
        partition_number(242) == 123888443077259,
{
    lemma_pentagonal_values();
    lemma_partition_terms_stable(242, 24, 242);
    assert(partition_terms(242, 0) == 0);
    lemma_partition_at_241();
    assert(partition_terms(242, 1) == 114540884553038);
    lemma_partition_at_240();
    assert(partition_terms(242, 2) == 220423131275771);
    lemma_partition_at_237();
    assert(partition_terms(242, 3) == 136862027349900);
    lemma_partition_at_235();
    assert(partition_terms(242, 4) == 65557841834981);
    lemma_partition_at_230();
    assert(partition_terms(242, 5) == 113384081580901);
    lemma_partition_at_227();
    assert(partition_terms(242, 6) == 150945215163471);
    lemma_partition_at_220();
    assert(partition_terms(242, 7) == 129696936154104);
    lemma_partition_at_216();
    assert(partition_terms(242, 8) == 114411784905623);
    lemma_partition_at_207();
    assert(partition_terms(242, 9) == 121618626612113);
    lemma_partition_at_202();
    assert(partition_terms(242, 10) == 126333193498196);
    lemma_partition_at_191();
    assert(partition_terms(242, 11) == 124512492397544);
    lemma_partition_at_185();
    assert(partition_terms(242, 12) == 123440668623207);
    lemma_partition_at_172();
    assert(partition_terms(242, 13) == 123771164122820);
    lemma_partition_at_165();
    assert(partition_terms(242, 14) == 123943553923075);
    lemma_partition_at_150();
    assert(partition_terms(242, 15) == 123902700687762);
    lemma_partition_at_142();
    assert(partition_terms(242, 16) == 123884260394442);
    lemma_partition_at_125();
    assert(partition_terms(242, 17) == 123887423521794);
    lemma_partition_at_116();
    assert(partition_terms(242, 18) == 123888612430042);
    lemma_partition_at_97();
    assert(partition_terms(242, 19) == 123888479199112);
    lemma_partition_at_87();
    assert(partition_terms(242, 20) == 123888440311439);
    lemma_partition_at_66();
    assert(partition_terms(242, 21) == 123888442634959);
    lemma_partition_at_55();
    assert(partition_terms(242, 22) == 123888443086235);
    lemma_partition_at_32();
    assert(partition_terms(242, 23) == 123888443077886);
    lemma_partition_at_20();
    assert(partition_terms(242, 24) == 123888443077259);
}

/// The recurrence at 243.
proof fn lemma_partition_at_243()
    ensures
        partition_number(243) == 133978259344888,
{
    lemma_pentagonal_values();
    lemma_partition_terms_stable(243, 24, 243);
    assert(partition_terms(243, 0) == 0);
    lemma_partition_at_242();
    assert(partition_terms(243, 1) == 123888443077259);
    lemma_partition_at_241();
    assert(partition_terms(243, 2) == 238429327630297);
    lemma_partition_at_238();
    assert(partition_terms(243, 3) == 147992487961480);
    lemma_partition_at_236();
    assert(partition_terms(243, 4) == 70796595297968);
    lemma_partition_at_231();
    assert(partition_terms(243, 5) == 122616647136680);
    lemma_partition_at_228();
    assert(partition_terms(243, 6) == 163334710764042);
    lemma_partition_at_221();
    assert(partition_terms(243, 7) == 140272839590193);
    lemma_partition_at_217();
    assert(partition_terms(243, 8) == 123671241482279);
    lemma_partition_at_208();
    assert(partition_terms(243, 9) == 131511897708416);
    lemma_partition_at_203();
    assert(partition_terms(243, 10) == 136646102996389);
    lemma_partition_at_192();
    assert(partition_terms(243, 11) == 134658826140026);
    lemma_partition_at_186();
    assert(partition_terms(243, 12) == 133487393447653);
    lemma_partition_at_173();
    assert(partition_terms(243, 13) == 133849720307548);
    lemma_partition_at_166();
    assert(partition_terms(243, 14) == 134039055130127);
    lemma_partition_at_151();
    assert(partition_terms(243, 15) == 133993994505545);
    lemma_partition_at_143();
    assert(partition_terms(243, 16) == 133973603522788);
    lemma_partition_at_126();
    assert(partition_terms(243, 17) == 133977122745480);
    lemma_partition_at_117();
    assert(partition_terms(243, 18) == 133978450455556);
    lemma_partition_at_98();
    assert(partition_terms(243, 19) == 133978300257420);
    lemma_partition_at_88();
    assert(partition_terms(243, 20) == 133978256149311);
    lemma_partition_at_67();
    assert(partition_terms(243, 21) == 133978258829000);
    lemma_partition_at_56();
    assert(partition_terms(243, 22) == 133978259355823);
    lemma_partition_at_33();
    assert(partition_terms(243, 23) == 133978259345680);
    lemma_partition_at_21();
    assert(partition_terms(243, 24) == 133978259344888);
}

/// The recurrence at 244.
proof fn lemma_partition_at_244()
    ensures
        partition_number(244) == 144867692496445,
{
    lemma_pentagonal_values();
    lemma_partition_terms_stable(244, 24, 244);
    assert(partition_terms(244, 0) == 0);
    lemma_partition_at_243();
    assert(partition_terms(244, 1) == 133978259344888);
    lemma_partition_at_242();
    assert(partition_terms(244, 2) == 257866702422147);
    lemma_partition_at_239();
    assert(partition_terms(244, 3) == 160003768718562);
    lemma_partition_at_237();
    assert(partition_terms(244, 4) == 76442664792691);
    lemma_partition_at_232();
    assert(partition_terms(244, 5) == 132580813463638);
    lemma_partition_at_229();
    assert(partition_terms(244, 6) == 176713748347893);
    lemma_partition_at_222();
    assert(partition_terms(244, 7) == 151687874587782);
    lemma_partition_at_218();
    assert(partition_terms(244, 8) == 133659692071111);
    lemma_partition_at_209();
    assert(partition_terms(244, 9) == 142188273373486);
    lemma_partition_at_204();
    assert(partition_terms(244, 10) == 147778361690981);
    lemma_partition_at_193();
    assert(partition_terms(244, 11) == 145609734585512);
    lemma_partition_at_187();
    assert(partition_terms(244, 12) == 144329723543244);
    lemma_partition_at_174();
    assert(partition_terms(244, 13) == 144726848617994);
    lemma_partition_at_167();
    assert(partition_terms(244, 14) == 144934739038096);
    lemma_partition_at_152();
    assert(partition_terms(244, 15) == 144885052749675);
    lemma_partition_at_144();
    assert(partition_terms(244, 16) == 144862512095230);
    lemma_partition_at_127();
    assert(partition_terms(244, 17) == 144866425959525);
    lemma_partition_at_118();
    assert(partition_terms(244, 18) == 144867908033668);
    lemma_partition_at_99();
    assert(partition_terms(244, 19) == 144867738803793);
    lemma_partition_at_89();
    assert(partition_terms(244, 20) == 144867688807868);
    lemma_partition_at_68();
    assert(partition_terms(244, 21) == 144867691895603);
    lemma_partition_at_57();
    assert(partition_terms(244, 22) == 144867692509757);
    lemma_partition_at_34();
    assert(partition_terms(244, 23) == 144867692497447);
    lemma_partition_at_22();
    assert(partition_terms(244, 24) == 144867692496445);
}

/// The recurrence at 245.
proof fn lemma_partition_at_245()
    ensures
        partition_number(245) == 156618412527946,
{
    lemma_pentagonal_values();
    lemma_partition_terms_stable(245, 24, 245);
    assert(partition_terms(245, 0) == 0);
    lemma_partition_at_244();
    assert(partition_terms(245, 1) == 144867692496445);
    lemma_partition_at_243();
    assert(partition_terms(245, 2) == 278845951841333);
    lemma_partition_at_240();
    assert(partition_terms(245, 3) == 172963705118600);
    lemma_partition_at_238();
    assert(partition_terms(245, 4) == 82526865449783);
    lemma_partition_at_233();
    assert(partition_terms(245, 5) == 143333000888112);
    lemma_partition_at_230();
    assert(partition_terms(245, 6) == 191159240634032);
    lemma_partition_at_223();
    assert(partition_terms(245, 7) == 164006831708417);
    lemma_partition_at_219();
    assert(partition_terms(245, 8) == 144432975547272);
    lemma_partition_at_210();
    assert(partition_terms(245, 9) == 153708078122627);
    lemma_partition_at_205();
    assert(partition_terms(245, 10) == 159793331981887);
    lemma_partition_at_194();
    assert(partition_terms(245, 11) == 157427309240042);
    lemma_partition_at_188();
    assert(partition_terms(245, 12) == 156028967494471);
    lemma_partition_at_175();
    assert(partition_terms(245, 13) == 156464125192301);
    lemma_partition_at_168();
    assert(partition_terms(245, 14) == 156692329925052);
    lemma_partition_at_153();
    assert(partition_terms(245, 15) == 156637559588728);
    lemma_partition_at_145();
    assert(partition_terms(245, 16) == 156612650730719);
    lemma_partition_at_128();
    assert(partition_terms(245, 17) == 156617001809319);
    lemma_partition_at_119();
    assert(partition_terms(245, 18) == 156618655477984);
    lemma_partition_at_100();
    assert(partition_terms(245, 19) == 156618464908692);
    lemma_partition_at_90();
    assert(partition_terms(245, 20) == 156618408274519);
    lemma_partition_at_69();
    assert(partition_terms(245, 21) == 156618411828864);
    lemma_partition_at_58();
    assert(partition_terms(245, 22) == 156618412544084);
    lemma_partition_at_35();
    assert(partition_terms(245, 23) == 156618412529201);
    lemma_partition_at_23();
    assert(partition_terms(245, 24) == 156618412527946);
}

/// The recurrence at 246.
proof fn lemma_partition_at_246()
    ensures
        partition_number(246) == 169296722391554,
{
    lemma_pentagonal_values();
    lemma_partition_terms_stable(246, 24, 246);
    assert(partition_terms(246, 0) == 0);
    lemma_partition_at_245();
    assert(partition_terms(246, 1) == 156618412527946);
    lemma_partition_at_244();
    assert(partition_terms(246, 2) == 301486105024391);
    lemma_partition_at_241();
    assert(partition_terms(246, 3) == 186945220471353);
    lemma_partition_at_239();
    assert(partition_terms(246, 4) == 89082286767768);
    lemma_partition_at_234();
    assert(partition_terms(246, 5) == 154933872738043);
    lemma_partition_at_231();
    assert(partition_terms(246, 6) == 206753924576755);
    lemma_partition_at_224();
    assert(partition_terms(246, 7) == 177299374635005);
    lemma_partition_at_220();
    assert(partition_terms(246, 8) == 156051095625638);
    lemma_partition_at_211();
    assert(partition_terms(246, 9) == 166136161511405);
    lemma_partition_at_206();
    assert(partition_terms(246, 10) == 172759149219445);
    lemma_partition_at_195();
    assert(partition_terms(246, 11) == 170178309006472);
    lemma_partition_at_189();
    assert(partition_terms(246, 12) == 168651035406847);
    lemma_partition_at_176();
    assert(partition_terms(246, 13) == 169127751264137);
    lemma_partition_at_169();
    assert(partition_terms(246, 14) == 169378190189252);
    lemma_partition_at_154();
    assert(partition_terms(246, 15) == 169317833515972);
    lemma_partition_at_146();
    assert(partition_terms(246, 16) == 169290316463373);
    lemma_partition_at_129();
    assert(partition_terms(246, 17) == 169295151735243);
    lemma_partition_at_120();
    assert(partition_terms(246, 18) == 169296996084803);
    lemma_partition_at_101();
    assert(partition_terms(246, 19) == 169296781603677);
    lemma_partition_at_91();
    assert(partition_terms(246, 20) == 169296717491318);
    lemma_partition_at_70();
    assert(partition_terms(246, 21) == 169296721579286);
    lemma_partition_at_59();
    assert(partition_terms(246, 22) == 169296722411106);
    lemma_partition_at_36();
    assert(partition_terms(246, 23) == 169296722393129);
    lemma_partition_at_24();
    assert(partition_terms(246, 24) == 169296722391554);
}

/// The recurrence at 247.
proof fn lemma_partition_at_247()
    ensures
        partition_number(247) == 182973889854026,
{
    lemma_pentagonal_values();
    lemma_partition_terms_stable(247, 25, 247);
    assert(partition_terms(247, 0) == 0);
    lemma_partition_at_246();
    assert(partition_terms(247, 1) == 169296722391554);
    lemma_partition_at_245();
    assert(partition_terms(247, 2) == 325915134919500);
    lemma_partition_at_242();
    assert(partition_terms(247, 3) == 202026691842241);
    lemma_partition_at_240();
    assert(partition_terms(247, 4) == 96144445119508);
    lemma_partition_at_235();
    assert(partition_terms(247, 5) == 167448630634427);
    lemma_partition_at_232();
    assert(partition_terms(247, 6) == 223586779305374);
    lemma_partition_at_225();
    assert(partition_terms(247, 7) == 191640388609217);
    lemma_partition_at_221();
    assert(partition_terms(247, 8) == 168578517435368);
    lemma_partition_at_212();
    assert(partition_terms(247, 9) == 179542224640627);
    lemma_partition_at_207();
    assert(partition_terms(247, 10) == 186749066347117);
    lemma_partition_at_196();
    assert(partition_terms(247, 11) == 183934495359526);
    lemma_partition_at_190();
    assert(partition_terms(247, 12) == 182266767955433);
    lemma_partition_at_177();
    assert(partition_terms(247, 13) == 182788883786628);
    lemma_partition_at_170();
    assert(partition_terms(247, 14) == 183063652403758);
    lemma_partition_at_155();
    assert(partition_terms(247, 15) == 182997159221661);
    lemma_partition_at_147();
    assert(partition_terms(247, 16) == 182966770549683);
    lemma_partition_at_130();
    assert(partition_terms(247, 17) == 182972141865083);
    lemma_partition_at_121();
    assert(partition_terms(247, 18) == 182974198013134);
    lemma_partition_at_102();
    assert(partition_terms(247, 19) == 182973956747755);
    lemma_partition_at_92();
    assert(partition_terms(247, 20) == 182973884213948);
    lemma_partition_at_71();
    assert(partition_terms(247, 21) == 182973888911153);
    lemma_partition_at_60();
    assert(partition_terms(247, 22) == 182973889877620);
    lemma_partition_at_37();
    assert(partition_terms(247, 23) == 182973889855983);
    lemma_partition_at_25();
    assert(partition_terms(247, 24) == 182973889854025);
    lemma_partition_at_0();
    assert(partition_terms(247, 25) == 182973889854026);
}

/// The recurrence at 248.
proof fn lemma_partition_at_248()
    ensures
        partition_number(248) == 197726516681672,
{
    lemma_pentagonal_values();
    lemma_partition_terms_stable(248, 25, 248);
    assert(partition_terms(248, 0) == 0);
    lemma_partition_at_247();
    assert(partition_terms(248, 1) == 182973889854026);
    lemma_partition_at_246();
    assert(partition_terms(248, 2) == 352270612245580);
    lemma_partition_at_243();
    assert(partition_terms(248, 3) == 218292352900692);
    lemma_partition_at_241();
    assert(partition_terms(248, 4) == 103751468347654);
    lemma_partition_at_236();
    assert(partition_terms(248, 5) == 180947361011166);
    lemma_partition_at_233();
    assert(partition_terms(248, 6) == 241753496449495);
    lemma_partition_at_226();
    assert(partition_terms(248, 7) == 207110370126976);
    lemma_partition_at_222();
    assert(partition_terms(248, 8) == 182084496366865);
    lemma_partition_at_213();
    assert(partition_terms(248, 9) == 194001177603143);
    lemma_partition_at_208();
    assert(partition_terms(248, 10) == 201841833829280);
    lemma_partition_at_197();
    assert(partition_terms(248, 11) == 198773003950750);
    lemma_partition_at_191();
    assert(partition_terms(248, 12) == 196952302850098);
    lemma_partition_at_178();
    assert(partition_terms(248, 13) == 197524004455753);
    lemma_partition_at_171();
    assert(partition_terms(248, 14) == 197825389257801);
    lemma_partition_at_156();
    assert(partition_terms(248, 15) == 197752157014042);
    lemma_partition_at_148();
    assert(partition_terms(248, 16) == 197718607594545);
    lemma_partition_at_131();
    assert(partition_terms(248, 17) == 197724572134049);
    lemma_partition_at_122();
    assert(partition_terms(248, 18) == 197726863454961);
    lemma_partition_at_103();
    assert(partition_terms(248, 19) == 197726592206011);
    lemma_partition_at_93();
    assert(partition_terms(248, 20) == 197726510195834);
    lemma_partition_at_72();
    assert(partition_terms(248, 21) == 197726515588617);
    lemma_partition_at_61();
    assert(partition_terms(248, 22) == 197726516710122);
    lemma_partition_at_38();
    assert(partition_terms(248, 23) == 197726516684107);
    lemma_partition_at_26();
    assert(partition_terms(248, 24) == 197726516681671);
    lemma_partition_at_1();
    assert(partition_terms(248, 25) == 197726516681672);
}

/// The recurrence at 249.
proof fn lemma_partition_at_249()
    ensures
        partition_number(249) == 213636919820625,
{
    lemma_pentagonal_values();
    lemma_partition_terms_stable(249, 25, 249);
    assert(partition_terms(249, 0) == 0);
    lemma_partition_at_248();
    assert(partition_terms(249, 1) == 197726516681672);
    lemma_partition_at_247();
    assert(partition_terms(249, 2) == 380700406535698);
    lemma_partition_at_244();
    assert(partition_terms(249, 3) == 235832714039253);
    lemma_partition_at_242();
    assert(partition_terms(249, 4) == 111944270961994);
    lemma_partition_at_237();
    assert(partition_terms(249, 5) == 195505374887865);
    lemma_partition_at_234();
    assert(partition_terms(249, 6) == 261356960858140);
    lemma_partition_at_227();
    assert(partition_terms(249, 7) == 223795827275570);
    lemma_partition_at_223();
    assert(partition_terms(249, 8) == 196643418349955);
    lemma_partition_at_214();
    assert(partition_terms(249, 9) == 209593514275850);
    lemma_partition_at_209();
    assert(partition_terms(249, 10) == 218122095578225);
    lemma_partition_at_198();
    assert(partition_terms(249, 11) == 214776729594527);
    lemma_partition_at_192();
    assert(partition_terms(249, 12) == 212789452738164);
    lemma_partition_at_179();
    assert(partition_terms(249, 13) == 213415299491284);
    lemma_partition_at_172();
    assert(partition_terms(249, 14) == 213745794990897);
    lemma_partition_at_157();
    assert(partition_terms(249, 15) == 213665164026128);
    lemma_partition_at_149();
    assert(partition_terms(249, 16) == 213628136670928);
    lemma_partition_at_132();
    assert(partition_terms(249, 17) == 213634757501817);
    lemma_partition_at_123();
    assert(partition_terms(249, 18) == 213637309840058);
    lemma_partition_at_104();
    assert(partition_terms(249, 19) == 213637005038693);
    lemma_partition_at_94();
    assert(partition_terms(249, 20) == 213636912368973);
    lemma_partition_at_73();
    assert(partition_terms(249, 21) == 213636918554662);
    lemma_partition_at_62();
    assert(partition_terms(249, 22) == 213636919854818);
    lemma_partition_at_39();
    assert(partition_terms(249, 23) == 213636919823633);
    lemma_partition_at_27();
    assert(partition_terms(249, 24) == 213636919820623);
    lemma_partition_at_2();
    assert(partition_terms(249, 25) == 213636919820625);
}

/// The recurrence at 250.
proof fn lemma_partition_at_250()
    ensures
        partition_number(250) == 230793554364681,
{
    lemma_pentagonal_values();
    lemma_partition_terms_stable(250, 25, 250);
    assert(partition_terms(250, 0) == 0);
    lemma_partition_at_249();
    assert(partition_terms(250, 1) == 213636919820625);
    lemma_partition_at_248();
    assert(partition_terms(250, 2) == 411363436502297);
    lemma_partition_at_245();
    assert(partition_terms(250, 3) == 254745023974351);
    lemma_partition_at_243();
    assert(partition_terms(250, 4) == 120766764629463);
    lemma_partition_at_238();
    assert(partition_terms(250, 5) == 211203604298280);
    lemma_partition_at_235();
    assert(partition_terms(250, 6) == 282507789813199);
    lemma_partition_at_228();
    assert(partition_terms(250, 7) == 241789726185837);
    lemma_partition_at_224();
    assert(partition_terms(250, 8) == 212335176244087);
    lemma_partition_at_215();
    assert(partition_terms(250, 9) == 226405721943374);
    lemma_partition_at_210();
    assert(partition_terms(250, 10) == 235680824518729);
    lemma_partition_at_199();
    assert(partition_terms(250, 11) == 232034752086604);
    lemma_partition_at_193();
    assert(partition_terms(250, 12) == 229866124981135);
    lemma_partition_at_180();
    assert(partition_terms(250, 13) == 230551082372071);
    lemma_partition_at_173();
    assert(partition_terms(250, 14) == 230913409231966);
    lemma_partition_at_158();
    assert(partition_terms(250, 15) == 230824657453164);
    lemma_partition_at_150();
    assert(partition_terms(250, 16) == 230783804217851);
    lemma_partition_at_133();
    assert(partition_terms(250, 17) == 230791150847363);
    lemma_partition_at_124();
    assert(partition_terms(250, 18) == 230793992787863);
    lemma_partition_at_105();
    assert(partition_terms(250, 19) == 230793650462154);
    lemma_partition_at_95();
    assert(partition_terms(250, 20) == 230793545810735);
    lemma_partition_at_74();
    assert(partition_terms(250, 21) == 230793552900235);
    lemma_partition_at_63();
    assert(partition_terms(250, 22) == 230793554405734);
    lemma_partition_at_40();
    assert(partition_terms(250, 23) == 230793554368396);
    lemma_partition_at_28();
    assert(partition_terms(250, 24) == 230793554364678);
    lemma_partition_at_3();
    assert(partition_terms(250, 25) == 230793554364681);
}

/// The recurrence at 251.
proof fn lemma_partition_at_251()
    ensures
        partition_number(251) == 249291451168559,
{
    lemma_pentagonal_values();
    lemma_partition_terms_stable(251, 25, 251);
    assert(partition_terms(251, 0) == 0);
    lemma_partition_at_250();
    assert(partition_terms(251, 1) == 230793554364681);
    lemma_partition_at_249();
    assert(partition_terms(251, 2) == 444430474185306);
    lemma_partition_at_246();
    assert(partition_terms(251, 3) == 275133751793752);
    lemma_partition_at_244();
    assert(partition_terms(251, 4) == 130266059297307);
    lemma_partition_at_239();
    assert(partition_terms(251, 5) == 228128993000892);
    lemma_partition_at_236();
    assert(partition_terms(251, 6) == 305324885664404);
    lemma_partition_at_229();
    assert(partition_terms(251, 7) == 261191950780149);
    lemma_partition_at_225();
    assert(partition_terms(251, 8) == 229245560083992);
    lemma_partition_at_216();
    assert(partition_terms(251, 9) == 244530711332473);
    lemma_partition_at_211();
    assert(partition_terms(251, 10) == 254615777218240);
    lemma_partition_at_200();
    assert(partition_terms(251, 11) == 250642778188852);
    lemma_partition_at_194();
    assert(partition_terms(251, 12) == 248276755447007);
    lemma_partition_at_181();
    assert(partition_terms(251, 13) == 249026229858788);
    lemma_partition_at_174();
    assert(partition_terms(251, 14) == 249423354933538);
    lemma_partition_at_159();
    assert(partition_terms(251, 15) == 249325692204983);
    lemma_partition_at_151();
    assert(partition_terms(251, 16) == 249280631580401);
    lemma_partition_at_134();
    assert(partition_terms(251, 17) == 249288780621096);
    lemma_partition_at_125();
    assert(partition_terms(251, 18) == 249291943748448);
    lemma_partition_at_106();
    assert(partition_terms(251, 19) == 249291559472112);
    lemma_partition_at_96();
    assert(partition_terms(251, 20) == 249291441357808);
    lemma_partition_at_75();
    assert(partition_terms(251, 21) == 249291449476072);
    lemma_partition_at_64();
    assert(partition_terms(251, 22) == 249291451217702);
    lemma_partition_at_41();
    assert(partition_terms(251, 23) == 249291451173119);
    lemma_partition_at_29();
    assert(partition_terms(251, 24) == 249291451168554);
    lemma_partition_at_4();
    assert(partition_terms(251, 25) == 249291451168559);
}

/// The recurrence at 252.
proof fn lemma_partition_at_252()
    ensures
        partition_number(252) == 269232701252579,
{
    lemma_pentagonal_values();
    lemma_partition_terms_stable(252, 25, 252);
    assert(partition_terms(252, 0) == 0);
    lemma_partition_at_251();
    assert(partition_terms(252, 1) == 249291451168559);
    lemma_partition_at_250();
    assert(partition_terms(252, 2) == 480085005533240);
    lemma_partition_at_247();
    assert(partition_terms(252, 3) == 297111115679214);
    lemma_partition_at_245();
    assert(partition_terms(252, 4) == 140492703151268);
    lemma_partition_at_240();
    assert(partition_terms(252, 5) == 246374949874001);
    lemma_partition_at_237();
    assert(partition_terms(252, 6) == 329936053799872);
    lemma_partition_at_230();
    assert(partition_terms(252, 7) == 282109814053952);
    lemma_partition_at_226();
    assert(partition_terms(252, 8) == 247466687731433);
    lemma_partition_at_217();
    assert(partition_terms(252, 9) == 264068285839347);
    lemma_partition_at_212();
    assert(partition_terms(252, 10) == 275031993044606);
    lemma_partition_at_201();
    assert(partition_terms(252, 11) == 270703629385959);
    lemma_partition_at_195();
    assert(partition_terms(252, 12) == 268122789172986);
    lemma_partition_at_182();
    assert(partition_terms(252, 13) == 268942666081309);
    lemma_partition_at_175();
    assert(partition_terms(252, 14) == 269377823779139);
    lemma_partition_at_160();
    assert(partition_terms(252, 15) == 269270385619673);
    lemma_partition_at_152();
    assert(partition_terms(252, 16) == 269220699331252);
    lemma_partition_at_135();
    assert(partition_terms(252, 17) == 269229735167328);
    lemma_partition_at_126();
    assert(partition_terms(252, 18) == 269233254390020);
    lemma_partition_at_107();
    assert(partition_terms(252, 19) == 269232823240631);
    lemma_partition_at_97();
    assert(partition_terms(252, 20) == 269232690009701);
    lemma_partition_at_76();
    assert(partition_terms(252, 21) == 269232699298792);
    lemma_partition_at_65();
    assert(partition_terms(252, 22) == 269232701311350);
    lemma_partition_at_42();
    assert(partition_terms(252, 23) == 269232701258176);
    lemma_partition_at_30();
    assert(partition_terms(252, 24) == 269232701252572);
    lemma_partition_at_5();
    assert(partition_terms(252, 25) == 269232701252579);
}

/// The recurrence at 253.
proof fn lemma_partition_at_253()
    ensures
        partition_number(253) == 290726957916112,
{
    lemma_pentagonal_values();
    lemma_partition_terms_stable(253, 25, 253);
    assert(partition_terms(253, 0) == 0);
    lemma_partition_at_252();
    assert(partition_terms(253, 1) == 269232701252579);
    lemma_partition_at_251();
    assert(partition_terms(253, 2) == 518524152421138);
    lemma_partition_at_248();
    assert(partition_terms(253, 3) == 320797635739466);
    lemma_partition_at_246();
    assert(partition_terms(253, 4) == 151500913347912);
    lemma_partition_at_241();
    assert(partition_terms(253, 5) == 266041797900950);
    lemma_partition_at_238();
    assert(partition_terms(253, 6) == 356478637569767);
    lemma_partition_at_231();
    assert(partition_terms(253, 7) == 304658585731055);
    lemma_partition_at_227();
    assert(partition_terms(253, 8) == 267097452148485);
    lemma_partition_at_218();
    assert(partition_terms(253, 9) == 285125634665156);
    lemma_partition_at_213();
    assert(partition_terms(253, 10) == 297042315901434);
    lemma_partition_at_202();
    assert(partition_terms(253, 11) == 292327749015351);
    lemma_partition_at_196();
    assert(partition_terms(253, 12) == 289513178027760);
    lemma_partition_at_183();
    assert(partition_terms(253, 13) == 290409862845287);
    lemma_partition_at_176();
    assert(partition_terms(253, 14) == 290886578702577);
    lemma_partition_at_161();
    assert(partition_terms(253, 15) == 290768419634150);
    lemma_partition_at_153();
    assert(partition_terms(253, 16) == 290713649297826);
    lemma_partition_at_136();
    assert(partition_terms(253, 17) == 290723664879506);
    lemma_partition_at_127();
    assert(partition_terms(253, 18) == 290727578743801);
    lemma_partition_at_108();
    assert(partition_terms(253, 19) == 290727095240957);
    lemma_partition_at_98();
    assert(partition_terms(253, 20) == 290726945042821);
    lemma_partition_at_77();
    assert(partition_terms(253, 21) == 290726955662684);
    lemma_partition_at_66();
    assert(partition_terms(253, 22) == 290726957986204);
    lemma_partition_at_43();
    assert(partition_terms(253, 23) == 290726957922943);
    lemma_partition_at_31();
    assert(partition_terms(253, 24) == 290726957916101);
    lemma_partition_at_6();
    assert(partition_terms(253, 25) == 290726957916112);
}

/// The recurrence at 254.
proof fn lemma_partition_at_254()
    ensures
        partition_number(254) == 313891991306665,
{
    lemma_pentagonal_values();
    lemma_partition_terms_stable(254, 25, 254);
    assert(partition_terms(254, 0) == 0);
    lemma_partition_at_253();
    assert(partition_terms(254, 1) == 290726957916112);
    lemma_partition_at_252();
    assert(partition_terms(254, 2) == 559959659168691);
    lemma_partition_at_249();
    assert(partition_terms(254, 3) == 346322739348066);
    lemma_partition_at_247();
    assert(partition_terms(254, 4) == 163348849494040);
    lemma_partition_at_242();
    assert(partition_terms(254, 5) == 287237292571299);
    lemma_partition_at_239();
    assert(partition_terms(254, 6) == 385100226274884);
    lemma_partition_at_232();
    assert(partition_terms(254, 7) == 328962077603937);
    lemma_partition_at_228();
    assert(partition_terms(254, 8) == 288244013976575);
    lemma_partition_at_219();
    assert(partition_terms(254, 9) == 307817870137720);
    lemma_partition_at_214();
    assert(partition_terms(254, 10) == 320767966063615);
    lemma_partition_at_203();
    assert(partition_terms(254, 11) == 315633760775642);
    lemma_partition_at_197();
    assert(partition_terms(254, 12) == 312564930897112);
    lemma_partition_at_184();
    assert(partition_terms(254, 13) == 313545393777542);
    lemma_partition_at_177();
    assert(partition_terms(254, 14) == 314067509608737);
    lemma_partition_at_162();
    assert(partition_terms(254, 15) == 313937595704100);
    lemma_partition_at_154();
    assert(partition_terms(254, 16) == 313877239030820);
    lemma_partition_at_137();
    assert(partition_terms(254, 17) == 313888336675836);
    lemma_partition_at_128();
    assert(partition_terms(254, 18) == 313892687754436);
    lemma_partition_at_109();
    assert(partition_terms(254, 19) == 313892145808196);
    lemma_partition_at_99();
    assert(partition_terms(254, 20) == 313891976578321);
    lemma_partition_at_78();
    assert(partition_terms(254, 21) == 313891988710485);
    lemma_partition_at_67();
    assert(partition_terms(254, 22) == 313891991390174);
    lemma_partition_at_44();
    assert(partition_terms(254, 23) == 313891991314999);
    lemma_partition_at_32();
    assert(partition_terms(254, 24) == 313891991306650);
    lemma_partition_at_7();
    assert(partition_terms(254, 25) == 313891991306665);
}

/// The recurrence at 255.
proof fn lemma_partition_at_255()
    ensures
        partition_number(255) == 338854264248680,
{
    lemma_pentagonal_values();
    lemma_partition_terms_stable(255, 25, 255);
    assert(partition_terms(255, 0) == 0);
    lemma_partition_at_254();
    assert(partition_terms(255, 1) == 313891991306665);
    lemma_partition_at_253();
    assert(partition_terms(255, 2) == 604618949222777);
    lemma_partition_at_250();
    assert(partition_terms(255, 3) == 373825394858096);
    lemma_partition_at_248();
    assert(partition_terms(255, 4) == 176098878176424);
    lemma_partition_at_243();
    assert(partition_terms(255, 5) == 310077137521312);
    lemma_partition_at_240();
    assert(partition_terms(255, 6) == 415959384244045);
    lemma_partition_at_233();
    assert(partition_terms(255, 7) == 355153248805716);
    lemma_partition_at_229();
    assert(partition_terms(255, 8) == 311020313921461);
    lemma_partition_at_220();
    assert(partition_terms(255, 9) == 332268592930828);
    lemma_partition_at_215();
    assert(partition_terms(255, 10) == 346339138630115);
    lemma_partition_at_204();
    assert(partition_terms(255, 11) == 340749050312620);
    lemma_partition_at_198();
    assert(partition_terms(255, 12) == 337403684328922);
    lemma_partition_at_185();
    assert(partition_terms(255, 13) == 338475508103259);
    lemma_partition_at_178();
    assert(partition_terms(255, 14) == 339047209708914);
    lemma_partition_at_163();
    assert(partition_terms(255, 15) == 338904410712984);
    lemma_partition_at_155();
    assert(partition_terms(255, 16) == 338837917530887);
    lemma_partition_at_138();
    assert(partition_terms(255, 17) == 338850209872718);
    lemma_partition_at_129();
    assert(partition_terms(255, 18) == 338855045144588);
    lemma_partition_at_110();
    assert(partition_terms(255, 19) == 338854437980842);
    lemma_partition_at_100();
    assert(partition_terms(255, 20) == 338854247411550);
    lemma_partition_at_79();
    assert(partition_terms(255, 21) == 338854261260200);
    lemma_partition_at_68();
    assert(partition_terms(255, 22) == 338854264347935);
    lemma_partition_at_45();
    assert(partition_terms(255, 23) == 338854264258801);
    lemma_partition_at_33();
    assert(partition_terms(255, 24) == 338854264248658);
    lemma_partition_at_8();
    assert(partition_terms(255, 25) == 338854264248680);
}

/// The recurrence at 256.
proof fn lemma_partition_at_256()
    ensures
        partition_number(256) == 365749566870782,
{
    lemma_pentagonal_values();
    lemma_partition_terms_stable(256, 25, 256);
    assert(partition_terms(256, 0) == 0);
    lemma_partition_at_255();
    assert(partition_terms(256, 1) == 338854264248680);
    lemma_partition_at_254();
    assert(partition_terms(256, 2) == 652746255555345);
    lemma_partition_at_251();
    assert(partition_terms(256, 3) == 403454804386786);
    lemma_partition_at_249();
    assert(partition_terms(256, 4) == 189817884566161);
    lemma_partition_at_244();
    assert(partition_terms(256, 5) == 334685577062606);
    lemma_partition_at_241();
    assert(partition_terms(256, 6) == 449226461615644);
    lemma_partition_at_234();
    assert(partition_terms(256, 7) == 383374875645369);
    lemma_partition_at_230();
    assert(partition_terms(256, 8) == 335548635899449);
    lemma_partition_at_221();
    assert(partition_terms(256, 9) == 358610507073298);
    lemma_partition_at_216();
    assert(partition_terms(256, 10) == 373895658321779);
    lemma_partition_at_205();
    assert(partition_terms(256, 11) == 367810404462519);
    lemma_partition_at_199();
    assert(partition_terms(256, 12) == 364164332030394);
    lemma_partition_at_186();
    assert(partition_terms(256, 13) == 365335764722767);
    lemma_partition_at_179();
    assert(partition_terms(256, 14) == 365961611475887);
    lemma_partition_at_164();
    assert(partition_terms(256, 15) == 365804692000592);
    lemma_partition_at_156();
    assert(partition_terms(256, 16) == 365731459756833);
    lemma_partition_at_139();
    assert(partition_terms(256, 17) == 365745070706728);
    lemma_partition_at_130();
    assert(partition_terms(256, 18) == 365750442022128);
    lemma_partition_at_111();
    assert(partition_terms(256, 19) == 365749762118925);
    lemma_partition_at_101();
    assert(partition_terms(256, 20) == 365749547637799);
    lemma_partition_at_80();
    assert(partition_terms(256, 21) == 365749563434275);
    lemma_partition_at_69();
    assert(partition_terms(256, 22) == 365749566988620);
    lemma_partition_at_46();
    assert(partition_terms(256, 23) == 365749566883062);
    lemma_partition_at_34();
    assert(partition_terms(256, 24) == 365749566870752);
    lemma_partition_at_9();
    assert(partition_terms(256, 25) == 365749566870782);
}

/// The recurrence at 257.
proof fn lemma_partition_at_257()
    ensures
        partition_number(257) == 394723676655357,
{
    lemma_pentagonal_values();
    lemma_partition_terms_stable(257, 25, 257);
    assert(partition_terms(257, 0) == 0);
    lemma_partition_at_256();
    assert(partition_terms(257, 1) == 365749566870782);
    lemma_partition_at_255();
    assert(partition_terms(257, 2) == 704603831119462);
    lemma_partition_at_252();
    assert(partition_terms(257, 3) == 435371129866883);
    lemma_partition_at_250();
    assert(partition_terms(257, 4) == 204577575502202);
    lemma_partition_at_245();
    assert(partition_terms(257, 5) == 361195988030148);
    lemma_partition_at_242();
    assert(partition_terms(257, 6) == 485084431107407);
    lemma_partition_at_235();
    assert(partition_terms(257, 7) == 413780245592488);
    lemma_partition_at_231();
    assert(partition_terms(257, 8) == 361960193753776);
    lemma_partition_at_222();
    assert(partition_terms(257, 9) == 386986067513887);
    lemma_partition_at_217();
    assert(partition_terms(257, 10) == 403587665621801);
    lemma_partition_at_206();
    assert(partition_terms(257, 11) == 396964677913761);
    lemma_partition_at_200();
    assert(partition_terms(257, 12) == 392991678884373);
    lemma_partition_at_187();
    assert(partition_terms(257, 13) == 394271689926641);
    lemma_partition_at_180();
    assert(partition_terms(257, 14) == 394956647317577);
    lemma_partition_at_165();
    assert(partition_terms(257, 15) == 394784257517322);
    lemma_partition_at_157();
    assert(partition_terms(257, 16) == 394703626552553);
    lemma_partition_at_140();
    assert(partition_terms(257, 17) == 394718692430688);
    lemma_partition_at_131();
    assert(partition_terms(257, 18) == 394724656970192);
    lemma_partition_at_112();
    assert(partition_terms(257, 19) == 394723895968036);
    lemma_partition_at_102();
    assert(partition_terms(257, 20) == 394723654702657);
    lemma_partition_at_81();
    assert(partition_terms(257, 21) == 394723672706984);
    lemma_partition_at_70();
    assert(partition_terms(257, 22) == 394723676794952);
    lemma_partition_at_47();
    assert(partition_terms(257, 23) == 394723676670198);
    lemma_partition_at_35();
    assert(partition_terms(257, 24) == 394723676655315);
    lemma_partition_at_10();
    assert(partition_terms(257, 25) == 394723676655357);
}

/// The recurrence at 258.
proof fn lemma_partition_at_258()
    ensures
        partition_number(258) == 425933084409356,
{
    lemma_pentagonal_values();
    lemma_partition_terms_stable(258, 25, 258);
    assert(partition_terms(258, 0) == 0);
    lemma_partition_at_257();
    assert(partition_terms(258, 1) == 394723676655357);
    lemma_partition_at_256();
    assert(partition_terms(258, 2) == 760473243526139);
    lemma_partition_at_253();
    assert(partition_terms(258, 3) == 469746285610027);
    lemma_partition_at_251();
    assert(partition_terms(258, 4) == 220454834441468);
    lemma_partition_at_246();
    assert(partition_terms(258, 5) == 389751556833022);
    lemma_partition_at_243();
    assert(partition_terms(258, 6) == 523729816177910);
    lemma_partition_at_236();
    assert(partition_terms(258, 7) == 446533923514398);
    lemma_partition_at_232();
    assert(partition_terms(258, 8) == 390395774843451);
    lemma_partition_at_223();
    assert(partition_terms(258, 9) == 417548183769066);
    lemma_partition_at_218();
    assert(partition_terms(258, 10) == 435576366285737);
    lemma_partition_at_207();
    assert(partition_terms(258, 11) == 428369524579247);
    lemma_partition_at_201();
    assert(partition_terms(258, 12) == 424041160920600);
    lemma_partition_at_188();
    assert(partition_terms(258, 13) == 425439502666171);
    lemma_partition_at_181();
    assert(partition_terms(258, 14) == 426188977077952);
    lemma_partition_at_166();
    assert(partition_terms(258, 15) == 425999642255373);
    lemma_partition_at_158();
    assert(partition_terms(258, 16) == 425910890476571);
    lemma_partition_at_141();
    assert(partition_terms(258, 17) == 425927561165779);
    lemma_partition_at_132();
    assert(partition_terms(258, 18) == 425934181996668);
    lemma_partition_at_113();
    assert(partition_terms(258, 19) == 425933330620040);
    lemma_partition_at_103();
    assert(partition_terms(258, 20) == 425933059371090);
    lemma_partition_at_82();
    assert(partition_terms(258, 21) == 425933079877345);
    lemma_partition_at_71();
    assert(partition_terms(258, 22) == 425933084574550);
    lemma_partition_at_48();
    assert(partition_terms(258, 23) == 425933084427277);
    lemma_partition_at_36();
    assert(partition_terms(258, 24) == 425933084409300);
    lemma_partition_at_11();
    assert(partition_terms(258, 25) == 425933084409356);
}

/// The recurrence at 259.
proof fn lemma_partition_at_259()
    ensures
        partition_number(259) == 459545750448675,
{
    lemma_pentagonal_values();
    lemma_partition_terms_stable(259, 25, 259);
    assert(partition_terms(259, 0) == 0);
    lemma_partition_at_258();
    assert(partition_terms(259, 1) == 425933084409356);
    lemma_partition_at_257();
    assert(partition_terms(259, 2) == 820656761064713);
    lemma_partition_at_254();
    assert(partition_terms(259, 3) == 506764769758048);
    lemma_partition_at_252();
    assert(partition_terms(259, 4) == 237532068505469);
    lemma_partition_at_247();
    assert(partition_terms(259, 5) == 420505958359495);
    lemma_partition_at_244();
    assert(partition_terms(259, 6) == 565373650855940);
    lemma_partition_at_237();
    assert(partition_terms(259, 7) == 481812546930069);
    lemma_partition_at_233();
    assert(partition_terms(259, 8) == 421006411491740);
    lemma_partition_at_224();
    assert(partition_terms(259, 9) == 450460961433490);
    lemma_partition_at_219();
    assert(partition_terms(259, 10) == 470034817594635);
    lemma_partition_at_208();
    assert(partition_terms(259, 11) == 462194161368498);
    lemma_partition_at_202();
    assert(partition_terms(259, 12) == 457479594482415);
    lemma_partition_at_189();
    assert(partition_terms(259, 13) == 459006868082040);
    lemma_partition_at_182();
    assert(partition_terms(259, 14) == 459826744990363);
    lemma_partition_at_167();
    assert(partition_terms(259, 15) == 459618854570261);
    lemma_partition_at_159();
    assert(partition_terms(259, 16) == 459521191841706);
    lemma_partition_at_142();
    assert(partition_terms(259, 17) == 459539632135026);
    lemma_partition_at_133();
    assert(partition_terms(259, 18) == 459546978764538);
    lemma_partition_at_114();
    assert(partition_terms(259, 19) == 459546026713873);
    lemma_partition_at_104();
    assert(partition_terms(259, 20) == 459545721912508);
    lemma_partition_at_83();
    assert(partition_terms(259, 21) == 459545745250977);
    lemma_partition_at_72();
    assert(partition_terms(259, 22) == 459545750643760);
    lemma_partition_at_49();
    assert(partition_terms(259, 23) == 459545750470235);
    lemma_partition_at_37();
    assert(partition_terms(259, 24) == 459545750448598);
    lemma_partition_at_12();
    assert(partition_terms(259, 25) == 459545750448675);
}

/// The recurrence at 260.
proof fn lemma_partition_at_260()
    ensures
        partition_number(260) == 495741934760846,
{
    lemma_pentagonal_values();
    lemma_partition_terms_stable(260, 26, 260);
    assert(partition_terms(260, 0) == 0);
    lemma_partition_at_259();
    assert(partition_terms(260, 1) == 459545750448675);
    lemma_partition_at_258();
    assert(partition_terms(260, 2) == 885478834858031);
    lemma_partition_at_255();
    assert(partition_terms(260, 3) == 546624570609351);
    lemma_partition_at_253();
    assert(partition_terms(260, 4) == 255897612693239);
    lemma_partition_at_248();
    assert(partition_terms(260, 5) == 453624129374911);
    lemma_partition_at_245();
    assert(partition_terms(260, 6) == 610242541902857);
    lemma_partition_at_238();
    assert(partition_terms(260, 7) == 519805702234040);
    lemma_partition_at_234();
    assert(partition_terms(260, 8) == 453954116263765);
    lemma_partition_at_225();
    assert(partition_terms(260, 9) == 485900506959922);
    lemma_partition_at_220();
    assert(partition_terms(260, 10) == 507148785969289);
    lemma_partition_at_209();
    assert(partition_terms(260, 11) == 498620204666914);
    lemma_partition_at_203();
    assert(partition_terms(260, 12) == 493485999378941);
    lemma_partition_at_190();
    assert(partition_terms(260, 13) == 495153726783034);
    lemma_partition_at_183();
    assert(partition_terms(260, 14) == 496050411600561);
    lemma_partition_at_168();
    assert(partition_terms(260, 15) == 495822206867810);
    lemma_partition_at_160();
    assert(partition_terms(260, 16) == 495714768708344);
    lemma_partition_at_143();
    assert(partition_terms(260, 17) == 495735159691101);
    lemma_partition_at_134();
    assert(partition_terms(260, 18) == 495743308731796);
    lemma_partition_at_115();
    assert(partition_terms(260, 19) == 495742244587345);
    lemma_partition_at_105();
    assert(partition_terms(260, 20) == 495741902261636);
    lemma_partition_at_84();
    assert(partition_terms(260, 21) == 495741928805296);
    lemma_partition_at_73();
    assert(partition_terms(260, 22) == 495741934990985);
    lemma_partition_at_50();
    assert(partition_terms(260, 23) == 495741934786759);
    lemma_partition_at_38();
    assert(partition_terms(260, 24) == 495741934760744);
    lemma_partition_at_13();
    assert(partition_terms(260, 25) == 495741934760845);
    lemma_partition_at_0();
    assert(partition_terms(260, 26) == 495741934760846);
}

/// The recurrence at 261.
proof fn lemma_partition_at_261()
    ensures
        partition_number(261) == 534715062908609,
{
    lemma_pentagonal_values();
    lemma_partition_terms_stable(261, 26, 261);
    assert(partition_terms(261, 0) == 0);
    lemma_partition_at_260();
    assert(partition_terms(261, 1) == 495741934760846);
    lemma_partition_at_259();
    assert(partition_terms(261, 2) == 955287685209521);
    lemma_partition_at_256();
    assert(partition_terms(261, 3) == 589538118338739);
    lemma_partition_at_254();
    assert(partition_terms(261, 4) == 275646127032074);
    lemma_partition_at_249();
    assert(partition_terms(261, 5) == 489283046852699);
    lemma_partition_at_246();
    assert(partition_terms(261, 6) == 658579769244253);
    lemma_partition_at_239();
    assert(partition_terms(261, 7) == 560716835540668);
    lemma_partition_at_235();
    assert(partition_terms(261, 8) == 489412650025749);
    lemma_partition_at_226();
    assert(partition_terms(261, 9) == 524055776348268);
    lemma_partition_at_221();
    assert(partition_terms(261, 10) == 547117647522117);
    lemma_partition_at_210();
    assert(partition_terms(261, 11) == 537842544946762);
    lemma_partition_at_204();
    assert(partition_terms(261, 12) == 532252456629267);
    lemma_partition_at_191();
    assert(partition_terms(261, 13) == 534073157729919);
    lemma_partition_at_184();
    assert(partition_terms(261, 14) == 535053620610349);
    lemma_partition_at_169();
    assert(partition_terms(261, 15) == 534803181685234);
    lemma_partition_at_161();
    assert(partition_terms(261, 16) == 534685022616807);
    lemma_partition_at_144();
    assert(partition_terms(261, 17) == 534707563271252);
    lemma_partition_at_135();
    assert(partition_terms(261, 18) == 534716599107328);
    lemma_partition_at_116();
    assert(partition_terms(261, 19) == 534715410199080);
    lemma_partition_at_106();
    assert(partition_terms(261, 20) == 534715025922744);
    lemma_partition_at_85();
    assert(partition_terms(261, 21) == 534715056090101);
    lemma_partition_at_74();
    assert(partition_terms(261, 22) == 534715063179601);
    lemma_partition_at_51();
    assert(partition_terms(261, 23) == 534715062939658);
    lemma_partition_at_39();
    assert(partition_terms(261, 24) == 534715062908473);
    lemma_partition_at_14();
    assert(partition_terms(261, 25) == 534715062908608);
    lemma_partition_at_1();
    assert(partition_terms(261, 26) == 534715062908609);
}

/// The recurrence at 262.
proof fn lemma_partition_at_262()
    ensures
        partition_number(262) == 576672674947168,
{
    lemma_pentagonal_values();
    lemma_partition_terms_stable(262, 26, 262);
    assert(partition_terms(262, 0) == 0);
    lemma_partition_at_261();
    assert(partition_terms(262, 1) == 534715062908609);
    lemma_partition_at_260();
    assert(partition_terms(262, 2) == 1030456997669455);
    lemma_partition_at_257();
    assert(partition_terms(262, 3) == 635733321014098);
    lemma_partition_at_255();
    assert(partition_terms(262, 4) == 296879056765418);
    lemma_partition_at_250();
    assert(partition_terms(262, 5) == 527672611130099);
    lemma_partition_at_247();
    assert(partition_terms(262, 6) == 710646500984125);
    lemma_partition_at_240();
    assert(partition_terms(262, 7) == 604764254261392);
    lemma_partition_at_236();
    assert(partition_terms(262, 8) == 527568361597880);
    lemma_partition_at_227();
    assert(partition_terms(262, 9) == 565129495180450);
    lemma_partition_at_222();
    assert(partition_terms(262, 10) == 590155368940561);
    lemma_partition_at_211();
    assert(partition_terms(262, 11) == 580070303054794);
    lemma_partition_at_205();
    assert(partition_terms(262, 12) == 573985049195534);
    lemma_partition_at_192();
    assert(partition_terms(262, 13) == 575972326051897);
    lemma_partition_at_185();
    assert(partition_terms(262, 14) == 577044149826234);
    lemma_partition_at_170();
    assert(partition_terms(262, 15) == 576769381209104);
    lemma_partition_at_162();
    assert(partition_terms(262, 16) == 576639467304467);
    lemma_partition_at_145();
    assert(partition_terms(262, 17) == 576664376162476);
    lemma_partition_at_136();
    assert(partition_terms(262, 18) == 576674391744156);
    lemma_partition_at_117();
    assert(partition_terms(262, 19) == 576673064034080);
    lemma_partition_at_107();
    assert(partition_terms(262, 20) == 576672632884691);
    lemma_partition_at_86();
    assert(partition_terms(262, 21) == 576672667147653);
    lemma_partition_at_75();
    assert(partition_terms(262, 22) == 576672675265917);
    lemma_partition_at_52();
    assert(partition_terms(262, 23) == 576672674984328);
    lemma_partition_at_40();
    assert(partition_terms(262, 24) == 576672674946990);
    lemma_partition_at_15();
    assert(partition_terms(262, 25) == 576672674947166);
    lemma_partition_at_2();
    assert(partition_terms(262, 26) == 576672674947168);
}

/// The recurrence at 263.
proof fn lemma_partition_at_263()
    ensures
        partition_number(263) == 621837416509615,
{
    lemma_pentagonal_values();
    lemma_partition_terms_stable(263, 26, 263);
    assert(partition_terms(263, 0) == 0);
    lemma_partition_at_262();
    assert(partition_terms(263, 1) == 576672674947168);
    lemma_partition_at_261();
    assert(partition_terms(263, 2) == 1111387737855777);
    lemma_partition_at_258();
    assert(partition_terms(263, 3) == 685454653446421);
    lemma_partition_at_256();
    assert(partition_terms(263, 4) == 319705086575639);
    lemma_partition_at_251();
    assert(partition_terms(263, 5) == 568996537744198);
    lemma_partition_at_248();
    assert(partition_terms(263, 6) == 766723054425870);
    lemma_partition_at_241();
    assert(partition_terms(263, 7) == 652182169872832);
    lemma_partition_at_237();
    assert(partition_terms(263, 8) == 568621065946961);
    lemma_partition_at_228();
    assert(partition_terms(263, 9) == 609339129574323);
    lemma_partition_at_223();
    assert(partition_terms(263, 10) == 636491538499938);
    lemma_partition_at_212();
    assert(partition_terms(263, 11) == 625527831294679);
    lemma_partition_at_206();
    assert(partition_terms(263, 12) == 618904843586639);
    lemma_partition_at_193();
    assert(partition_terms(263, 13) == 621073470692108);
    lemma_partition_at_186();
    assert(partition_terms(263, 14) == 622244903384481);
    lemma_partition_at_171();
    assert(partition_terms(263, 15) == 621943518582433);
    lemma_partition_at_163();
    assert(partition_terms(263, 16) == 621800719586503);
    lemma_partition_at_146();
    assert(partition_terms(263, 17) == 621828236639102);
    lemma_partition_at_137();
    assert(partition_terms(263, 18) == 621839334284118);
    lemma_partition_at_118();
    assert(partition_terms(263, 19) == 621837852209975);
    lemma_partition_at_108();
    assert(partition_terms(263, 20) == 621837368707131);
    lemma_partition_at_87();
    assert(partition_terms(263, 21) == 621837407594804);
    lemma_partition_at_76();
    assert(partition_terms(263, 22) == 621837416883895);
    lemma_partition_at_53();
    assert(partition_terms(263, 23) == 621837416553964);
    lemma_partition_at_41();
    assert(partition_terms(263, 24) == 621837416509381);
    lemma_partition_at_16();
    assert(partition_terms(263, 25) == 621837416509612);
    lemma_partition_at_3();
    assert(partition_terms(263, 26) == 621837416509615);
}

/// The recurrence at 264.
proof fn lemma_partition_at_264()
    ensures
        partition_number(264) == 670448123060170,
{
    lemma_pentagonal_values();
    lemma_partition_terms_stable(264, 26, 264);
    assert(partition_terms(264, 0) == 0);
    lemma_partition_at_263();
    assert(partition_terms(264, 1) == 621837416509615);
    lemma_partition_at_262();
    assert(partition_terms(264, 2) == 1198510091456783);
    lemma_partition_at_259();
    assert(partition_terms(264, 3) == 738964341008108);
    lemma_partition_at_257();
    assert(partition_terms(264, 4) == 344240664352751);
    lemma_partition_at_252();
    assert(partition_terms(264, 5) == 613473365605330);
    lemma_partition_at_249();
    assert(partition_terms(264, 6) == 827110285425955);
    lemma_partition_at_242();
    assert(partition_terms(264, 7) == 703221842348696);
    lemma_partition_at_238();
    assert(partition_terms(264, 8) == 612785002679879);
    lemma_partition_at_229();
    assert(partition_terms(264, 9) == 656917937564134);
    lemma_partition_at_224();
    assert(partition_terms(264, 10) == 686372487505884);
    lemma_partition_at_213();
    assert(partition_terms(264, 11) == 674455806269606);
    lemma_partition_at_207();
    assert(partition_terms(264, 12) == 667248964563116);
    lemma_partition_at_194();
    assert(partition_terms(264, 13) == 669614987304961);
    lemma_partition_at_187();
    assert(partition_terms(264, 14) == 670894998347229);
    lemma_partition_at_172();
    assert(partition_terms(264, 15) == 670564502847616);
    lemma_partition_at_164();
    assert(partition_terms(264, 16) == 670407583372321);
    lemma_partition_at_147();
    assert(partition_terms(264, 17) == 670437972044299);
    lemma_partition_at_138();
    assert(partition_terms(264, 18) == 670450264386130);
    lemma_partition_at_119();
    assert(partition_terms(264, 19) == 670448610717465);
    lemma_partition_at_109();
    assert(partition_terms(264, 20) == 670448068771225);
    lemma_partition_at_88();
    assert(partition_terms(264, 21) == 670448112879334);
    lemma_partition_at_77();
    assert(partition_terms(264, 22) == 670448123499197);
    lemma_partition_at_54();
    assert(partition_terms(264, 23) == 670448123113042);
    lemma_partition_at_42();
    assert(partition_terms(264, 24) == 670448123059868);
    lemma_partition_at_17();
    assert(partition_terms(264, 25) == 670448123060165);
    lemma_partition_at_4();
    assert(partition_terms(264, 26) == 670448123060170);
}

/// The recurrence at 265.
proof fn lemma_partition_at_265()
    ensures
        partition_number(265) == 722760953690372,
{
    lemma_pentagonal_values();
    lemma_partition_terms_stable(265, 26, 265);
    assert(partition_terms(265, 0) == 0);
    lemma_partition_at_264();
    assert(partition_terms(265, 1) == 670448123060170);
    lemma_partition_at_263();
    assert(partition_terms(265, 2) == 1292285539569785);
    lemma_partition_at_260();
    assert(partition_terms(265, 3) == 796543604808939);
    lemma_partition_at_258();
    assert(partition_terms(265, 4) == 370610520399583);
    lemma_partition_at_253();
    assert(partition_terms(265, 5) == 661337478315695);
    lemma_partition_at_250();
    assert(partition_terms(265, 6) == 892131032680376);
    lemma_partition_at_243();
    assert(partition_terms(265, 7) == 758152773335488);
    lemma_partition_at_239();
    assert(partition_terms(265, 8) == 660289839631903);
    lemma_partition_at_230();
    assert(partition_terms(265, 9) == 708116079377823);
    lemma_partition_at_225();
    assert(partition_terms(265, 10) == 740062470073980);
    lemma_partition_at_214();
    assert(partition_terms(265, 11) == 727112374148085);
    lemma_partition_at_208();
    assert(partition_terms(265, 12) == 719271717921948);
    lemma_partition_at_195();
    assert(partition_terms(265, 13) == 721852558134921);
    lemma_partition_at_188();
    assert(partition_terms(265, 14) == 723250899880492);
    lemma_partition_at_173();
    assert(partition_terms(265, 15) == 722888573020597);
    lemma_partition_at_165();
    assert(partition_terms(265, 16) == 722716183220342);
    lemma_partition_at_148();
    assert(partition_terms(265, 17) == 722749732639839);
    lemma_partition_at_139();
    assert(partition_terms(265, 18) == 722763343589734);
    lemma_partition_at_120();
    assert(partition_terms(265, 19) == 722761499240174);
    lemma_partition_at_110();
    assert(partition_terms(265, 20) == 722760892076428);
    lemma_partition_at_89();
    assert(partition_terms(265, 21) == 722760942072353);
    lemma_partition_at_78();
    assert(partition_terms(265, 22) == 722760954204517);
    lemma_partition_at_55();
    assert(partition_terms(265, 23) == 722760953753241);
    lemma_partition_at_43();
    assert(partition_terms(265, 24) == 722760953689980);
    lemma_partition_at_18();
    assert(partition_terms(265, 25) == 722760953690365);
    lemma_partition_at_5();
    assert(partition_terms(265, 26) == 722760953690372);
}

/// The recurrence at 266.
proof fn lemma_partition_at_266()
    ensures
        partition_number(266) == 779050629562167,
{
    lemma_pentagonal_values();
    lemma_partition_terms_stable(266, 26, 266);
    assert(partition_terms(266, 0) == 0);
    lemma_partition_at_265();
    assert(partition_terms(266, 1) == 722760953690372);
    lemma_partition_at_264();
    assert(partition_terms(266, 2) == 1393209076750542);
    lemma_partition_at_261();
    assert(partition_terms(266, 3) == 858494013841933);
    lemma_partition_at_259();
    assert(partition_terms(266, 4) == 398948263393258);
    lemma_partition_at_254();
    assert(partition_terms(266, 5) == 712840254699923);
    lemma_partition_at_251();
    assert(partition_terms(266, 6) == 962131705868482);
    lemma_partition_at_244();
    assert(partition_terms(266, 7) == 817264013372037);
    lemma_partition_at_240();
    assert(partition_terms(266, 8) == 711381766649304);
    lemma_partition_at_231();
    assert(partition_terms(266, 9) == 763201818488016);
    lemma_partition_at_226();
    assert(partition_terms(266, 10) == 797844944810535);
    lemma_partition_at_215();
    assert(partition_terms(266, 11) == 783774399111248);
    lemma_partition_at_209();
    assert(partition_terms(266, 12) == 775245817808873);
    lemma_partition_at_196();
    assert(partition_terms(266, 13) == 778060388796464);
    lemma_partition_at_189();
    assert(partition_terms(266, 14) == 779587662396089);
    lemma_partition_at_174();
    assert(partition_terms(266, 15) == 779190537321339);
    lemma_partition_at_166();
    assert(partition_terms(266, 16) == 779001202498760);
    lemma_partition_at_149();
    assert(partition_terms(266, 17) == 779038229853960);
    lemma_partition_at_140();
    assert(partition_terms(266, 18) == 779053295732095);
    lemma_partition_at_121();
    assert(partition_terms(266, 19) == 779051239584044);
    lemma_partition_at_111();
    assert(partition_terms(266, 20) == 779050559680841);
    lemma_partition_at_90();
    assert(partition_terms(266, 21) == 779050616315014);
    lemma_partition_at_79();
    assert(partition_terms(266, 22) == 779050630163664);
    lemma_partition_at_56();
    assert(partition_terms(266, 23) == 779050629636841);
    lemma_partition_at_44();
    assert(partition_terms(266, 24) == 779050629561666);
    lemma_partition_at_19();
    assert(partition_terms(266, 25) == 779050629562156);
    lemma_partition_at_6();
    assert(partition_terms(266, 26) == 779050629562167);
}

/// The recurrence at 267.
proof fn lemma_partition_at_267()
    ensures
        partition_number(267) == 839611730366814,
{
    lemma_pentagonal_values();
    lemma_partition_terms_stable(267, 26, 267);
    assert(partition_terms(267, 0) == 0);
    lemma_partition_at_266();
    assert(partition_terms(267, 1) == 779050629562167);
    lemma_partition_at_265();
    assert(partition_terms(267, 2) == 1501811583252539);
    lemma_partition_at_262();
    assert(partition_terms(267, 3) == 925138908305371);
    lemma_partition_at_260();
    assert(partition_terms(267, 4) == 429396973544525);
    lemma_partition_at_255();
    assert(partition_terms(267, 5) == 768251237793205);
    lemma_partition_at_252();
    assert(partition_terms(267, 6) == 1037483939045784);
    lemma_partition_at_245();
    assert(partition_terms(267, 7) == 880865526517838);
    lemma_partition_at_241();
    assert(partition_terms(267, 8) == 766324641964800);
    lemma_partition_at_232();
    assert(partition_terms(267, 9) == 822462790635747);
    lemma_partition_at_227();
    assert(partition_terms(267, 10) == 860023924218317);
    lemma_partition_at_216();
    assert(partition_terms(267, 11) == 844738772969836);
    lemma_partition_at_210();
    assert(partition_terms(267, 12) == 835463670394481);
    lemma_partition_at_197();
    assert(partition_terms(267, 13) == 838532500273011);
    lemma_partition_at_190();
    assert(partition_terms(267, 14) == 840200227677104);
    lemma_partition_at_175();
    assert(partition_terms(267, 15) == 839765069979274);
    lemma_partition_at_167();
    assert(partition_terms(267, 16) == 839557179559172);
    lemma_partition_at_150();
    assert(partition_terms(267, 17) == 839598032794485);
    lemma_partition_at_141();
    assert(partition_terms(267, 18) == 839614703483693);
    lemma_partition_at_122();
    assert(partition_terms(267, 19) == 839612412162781);
    lemma_partition_at_112();
    assert(partition_terms(267, 20) == 839611651160625);
    lemma_partition_at_91();
    assert(partition_terms(267, 21) == 839611715272984);
    lemma_partition_at_80();
    assert(partition_terms(267, 22) == 839611731069460);
    lemma_partition_at_57();
    assert(partition_terms(267, 23) == 839611730455306);
    lemma_partition_at_45();
    assert(partition_terms(267, 24) == 839611730366172);
    lemma_partition_at_20();
    assert(partition_terms(267, 25) == 839611730366799);
    lemma_partition_at_7();
    assert(partition_terms(267, 26) == 839611730366814);
}

/// The recurrence at 268.
proof fn lemma_partition_at_268()
    ensures
        partition_number(268) == 904760108316360,
{
    lemma_pentagonal_values();
    lemma_partition_terms_stable(268, 26, 268);
    assert(partition_terms(268, 0) == 0);
    lemma_partition_at_267();
    assert(partition_terms(268, 1) == 839611730366814);
    lemma_partition_at_266();
    assert(partition_terms(268, 2) == 1618662359928981);
    lemma_partition_at_263();
    assert(partition_terms(268, 3) == 996824943419366);
    lemma_partition_at_261();
    assert(partition_terms(268, 4) == 462109880510757);
    lemma_partition_at_256();
    assert(partition_terms(268, 5) == 827859447381539);
    lemma_partition_at_253();
    assert(partition_terms(268, 6) == 1118586405297651);
    lemma_partition_at_246();
    assert(partition_terms(268, 7) == 949289682906097);
    lemma_partition_at_242();
    assert(partition_terms(268, 8) == 825401239828838);
    lemma_partition_at_233();
    assert(partition_terms(268, 9) == 886207375267167);
    lemma_partition_at_228();
    assert(partition_terms(268, 10) == 926925438894529);
    lemma_partition_at_217();
    assert(partition_terms(268, 11) == 910323840786615);
    lemma_partition_at_211();
    assert(partition_terms(268, 12) == 900238774900848);
    lemma_partition_at_198();
    assert(partition_terms(268, 13) == 903584140884546);
    lemma_partition_at_191();
    assert(partition_terms(268, 14) == 905404841985198);
    lemma_partition_at_176();
    assert(partition_terms(268, 15) == 904928126127908);
    lemma_partition_at_168();
    assert(partition_terms(268, 16) == 904699921395157);
    lemma_partition_at_151();
    assert(partition_terms(268, 17) == 904744982019739);
    lemma_partition_at_142();
    assert(partition_terms(268, 18) == 904763422313059);
    lemma_partition_at_123();
    assert(partition_terms(268, 19) == 904760869974818);
    lemma_partition_at_113();
    assert(partition_terms(268, 20) == 904760018598190);
    lemma_partition_at_92();
    assert(partition_terms(268, 21) == 904760091131997);
    lemma_partition_at_81();
    assert(partition_terms(268, 22) == 904760109136324);
    lemma_partition_at_58();
    assert(partition_terms(268, 23) == 904760108421104);
    lemma_partition_at_46();
    assert(partition_terms(268, 24) == 904760108315546);
    lemma_partition_at_21();
    assert(partition_terms(268, 25) == 904760108316338);
    lemma_partition_at_8();
    assert(partition_terms(268, 26) == 904760108316360);
}

/// The recurrence at 269.
proof fn lemma_partition_at_269()
    ensures
        partition_number(269) == 974834369944625,
{
    lemma_pentagonal_values();
    lemma_partition_terms_stable(269, 26, 269);
    assert(partition_terms(269, 0) == 0);
    lemma_partition_at_268();
    assert(partition_terms(269, 1) == 904760108316360);
    lemma_partition_at_267();
    assert(partition_terms(269, 2) == 1744371838683174);
    lemma_partition_at_264();
    assert(partition_terms(269, 3) == 1073923715623004);
    lemma_partition_at_262();
    assert(partition_terms(269, 4) == 497251040675836);
    lemma_partition_at_257();
    assert(partition_terms(269, 5) == 891974717331193);
    lemma_partition_at_254();
    assert(partition_terms(269, 6) == 1205866708637858);
    lemma_partition_at_247();
    assert(partition_terms(269, 7) == 1022892818783832);
    lemma_partition_at_243();
    assert(partition_terms(269, 8) == 888914559438944);
    lemma_partition_at_234();
    assert(partition_terms(269, 9) == 954766145409219);
    lemma_partition_at_229();
    assert(partition_terms(269, 10) == 998899080293474);
    lemma_partition_at_218();
    assert(partition_terms(269, 11) == 980870897776803);
    lemma_partition_at_212();
    assert(partition_terms(269, 12) == 969907190571544);
    lemma_partition_at_199();
    assert(partition_terms(269, 13) == 973553263003669);
    lemma_partition_at_192();
    assert(partition_terms(269, 14) == 975540539860032);
    lemma_partition_at_177();
    assert(partition_terms(269, 15) == 975018424028837);
    lemma_partition_at_169();
    assert(partition_terms(269, 16) == 974767985103722);
    lemma_partition_at_152();
    assert(partition_terms(269, 17) == 974817671392143);
    lemma_partition_at_143();
    assert(partition_terms(269, 18) == 974838062374900);
    lemma_partition_at_124();
    assert(partition_terms(269, 19) == 974835220434400);
    lemma_partition_at_114();
    assert(partition_terms(269, 20) == 974834268383735);
    lemma_partition_at_93();
    assert(partition_terms(269, 21) == 974834350393912);
    lemma_partition_at_82();
    assert(partition_terms(269, 22) == 974834370900167);
    lemma_partition_at_59();
    assert(partition_terms(269, 23) == 974834370068347);
    lemma_partition_at_47();
    assert(partition_terms(269, 24) == 974834369943593);
    lemma_partition_at_22();
    assert(partition_terms(269, 25) == 974834369944595);
    lemma_partition_at_9();
    assert(partition_terms(269, 26) == 974834369944625);
}

/// The recurrence at 270.
proof fn lemma_partition_at_270()
    ensures
        partition_number(270) == 1050197489931117,
{
    lemma_pentagonal_values();
    lemma_partition_terms_stable(270, 26, 270);
    assert(partition_terms(270, 0) == 0);
    lemma_partition_at_269();
    assert(partition_terms(270, 1) == 974834369944625);
    lemma_partition_at_268();
    assert(partition_terms(270, 2) == 1879594478260985);
    lemma_partition_at_265();
    assert(partition_terms(270, 3) == 1156833524570613);
    lemma_partition_at_263();
    assert(partition_terms(270, 4) == 534996108060998);
    lemma_partition_at_258();
    assert(partition_terms(270, 5) == 960929192470354);
    lemma_partition_at_255();
    assert(partition_terms(270, 6) == 1299783456719034);
    lemma_partition_at_248();
    assert(partition_terms(270, 7) == 1102056940037362);
    lemma_partition_at_244();
    assert(partition_terms(270, 8) == 957189247540917);
    lemma_partition_at_235();
    assert(partition_terms(270, 9) == 1028493433055836);
    lemma_partition_at_230();
    assert(partition_terms(270, 10) == 1076319672801756);
    lemma_partition_at_219();
    assert(partition_terms(270, 11) == 1056745816640611);
    lemma_partition_at_213();
    assert(partition_terms(270, 12) == 1044829135404333);
    lemma_partition_at_200();
    assert(partition_terms(270, 13) == 1048802134433721);
    lemma_partition_at_193();
    assert(partition_terms(270, 14) == 1050970761539190);
    lemma_partition_at_178();
    assert(partition_terms(270, 15) == 1050399059933535);
    lemma_partition_at_170();
    assert(partition_terms(270, 16) == 1050124291316405);
    lemma_partition_at_153();
    assert(partition_terms(270, 17) == 1050179061652729);
    lemma_partition_at_144();
    assert(partition_terms(270, 18) == 1050201602307174);
    lemma_partition_at_125();
    assert(partition_terms(270, 19) == 1050198439179822);
    lemma_partition_at_115();
    assert(partition_terms(270, 20) == 1050197375035371);
    lemma_partition_at_94();
    assert(partition_terms(270, 21) == 1050197467705091);
    lemma_partition_at_83();
    assert(partition_terms(270, 22) == 1050197491043560);
    lemma_partition_at_60();
    assert(partition_terms(270, 23) == 1050197490077093);
    lemma_partition_at_48();
    assert(partition_terms(270, 24) == 1050197489929820);
    lemma_partition_at_23();
    assert(partition_terms(270, 25) == 1050197489931075);
    lemma_partition_at_10();
    assert(partition_terms(270, 26) == 1050197489931117);
}

/// The recurrence at 271.
proof fn lemma_partition_at_271()
    ensures
        partition_number(271) == 1131238503938606,
{
    lemma_pentagonal_values();
    lemma_partition_terms_stable(271, 26, 271);
    assert(partition_terms(271, 0) == 0);
    lemma_partition_at_270();
    assert(partition_terms(271, 1) == 1050197489931117);
    lemma_partition_at_269();
    assert(partition_terms(271, 2) == 2025031859875742);
    lemma_partition_at_266();
    assert(partition_terms(271, 3) == 1245981230313575);
    lemma_partition_at_264();
    assert(partition_terms(271, 4) == 575533107253405);
    lemma_partition_at_259();
    assert(partition_terms(271, 5) == 1035078857702080);
    lemma_partition_at_256();
    assert(partition_terms(271, 6) == 1400828424572862);
    lemma_partition_at_249();
    assert(partition_terms(271, 7) == 1187191504752237);
    lemma_partition_at_245();
    assert(partition_terms(271, 8) == 1030573092224291);
    lemma_partition_at_236();
    assert(partition_terms(271, 9) == 1107768984887803);
    lemma_partition_at_231();
    assert(partition_terms(271, 10) == 1159589036726515);
    lemma_partition_at_220();
    assert(partition_terms(271, 11) == 1138340757717148);
    lemma_partition_at_214();
    assert(partition_terms(271, 12) == 1125390661791253);
    lemma_partition_at_201();
    assert(partition_terms(271, 13) == 1129719025449900);
    lemma_partition_at_194();
    assert(partition_terms(271, 14) == 1132085048191745);
    lemma_partition_at_179();
    assert(partition_terms(271, 15) == 1131459201438625);
    lemma_partition_at_171();
    assert(partition_terms(271, 16) == 1131157816636577);
    lemma_partition_at_154();
    assert(partition_terms(271, 17) == 1131218173309857);
    lemma_partition_at_145();
    assert(partition_terms(271, 18) == 1131243082167866);
    lemma_partition_at_126();
    assert(partition_terms(271, 19) == 1131239562945174);
    lemma_partition_at_116();
    assert(partition_terms(271, 20) == 1131238374036926);
    lemma_partition_at_95();
    assert(partition_terms(271, 21) == 1131238478688345);
    lemma_partition_at_84();
    assert(partition_terms(271, 22) == 1131238505232005);
    lemma_partition_at_61();
    assert(partition_terms(271, 23) == 1131238504110500);
    lemma_partition_at_49();
    assert(partition_terms(271, 24) == 1131238503936975);
    lemma_partition_at_24();
    assert(partition_terms(271, 25) == 1131238503938550);
    lemma_partition_at_11();
    assert(partition_terms(271, 26) == 1131238503938606);
}

/// The recurrence at 272.
proof fn lemma_partition_at_272()
    ensures
        partition_number(272) == 1218374349844333,
{
    lemma_pentagonal_values();
    lemma_partition_terms_stable(272, 26, 272);
    assert(partition_terms(272, 0) == 0);
    lemma_partition_at_271();
    assert(partition_terms(272, 1) == 1131238503938606);
    lemma_partition_at_270();
    assert(partition_terms(272, 2) == 2181435993869723);
    lemma_partition_at_267();
    assert(partition_terms(272, 3) == 1341824263502909);
    lemma_partition_at_265();
    assert(partition_terms(272, 4) == 619063309812537);
    lemma_partition_at_260();
    assert(partition_terms(272, 5) == 1114805244573383);
    lemma_partition_at_257();
    assert(partition_terms(272, 6) == 1509528921228740);
    lemma_partition_at_250();
    assert(partition_terms(272, 7) == 1278735366864059);
    lemma_partition_at_246();
    assert(partition_terms(272, 8) == 1109438644472505);
    lemma_partition_at_237();
    assert(partition_terms(272, 9) == 1192999748398376);
    lemma_partition_at_232();
    assert(partition_terms(272, 10) == 1249137897069323);
    lemma_partition_at_221();
    assert(partition_terms(272, 11) == 1226076025895474);
    lemma_partition_at_215();
    assert(partition_terms(272, 12) == 1212005480196187);
    lemma_partition_at_202();
    assert(partition_terms(272, 13) == 1216720047082270);
    lemma_partition_at_195();
    assert(partition_terms(272, 14) == 1219300887295243);
    lemma_partition_at_180();
    assert(partition_terms(272, 15) == 1218615929904307);
    lemma_partition_at_172();
    assert(partition_terms(272, 16) == 1218285434404694);
    lemma_partition_at_155();
    assert(partition_terms(272, 17) == 1218351927586791);
    lemma_partition_at_146();
    assert(partition_terms(272, 18) == 1218379444639390);
    lemma_partition_at_127();
    assert(partition_terms(272, 19) == 1218375530775095);
    lemma_partition_at_117();
    assert(partition_terms(272, 20) == 1218374203065019);
    lemma_partition_at_96();
    assert(partition_terms(272, 21) == 1218374321179323);
    lemma_partition_at_85();
    assert(partition_terms(272, 22) == 1218374351346680);
    lemma_partition_at_62();
    assert(partition_terms(272, 23) == 1218374350046524);
    lemma_partition_at_50();
    assert(partition_terms(272, 24) == 1218374349842298);
    lemma_partition_at_25();
    assert(partition_terms(272, 25) == 1218374349844256);
    lemma_partition_at_12();
    assert(partition_terms(272, 26) == 1218374349844333);
}

/// The recurrence at 273.
proof fn lemma_partition_at_273()
    ensures
        partition_number(273) == 1312051800816215,
{
    lemma_pentagonal_values();
    lemma_partition_terms_stable(273, 26, 273);
    assert(partition_terms(273, 0) == 0);
    lemma_partition_at_272();
    assert(partition_terms(273, 1) == 1218374349844333);
    lemma_partition_at_271();
    assert(partition_terms(273, 2) == 2349612853782939);
    lemma_partition_at_268();
    assert(partition_terms(273, 3) == 1444852745466579);
    lemma_partition_at_266();
    assert(partition_terms(273, 4) == 665802115904412);
    lemma_partition_at_261();
    assert(partition_terms(273, 5) == 1200517178813021);
    lemma_partition_at_258();
    assert(partition_terms(273, 6) == 1626450263222377);
    lemma_partition_at_251();
    assert(partition_terms(273, 7) == 1377158812053818);
    lemma_partition_at_247();
    assert(partition_terms(273, 8) == 1194184922199792);
    lemma_partition_at_238();
    assert(partition_terms(273, 9) == 1284621761868609);
    lemma_partition_at_233();
    assert(partition_terms(273, 10) == 1345427897306938);
    lemma_partition_at_222();
    assert(partition_terms(273, 11) == 1320402023546827);
    lemma_partition_at_216();
    assert(partition_terms(273, 12) == 1305116872298346);
    lemma_partition_at_203();
    assert(partition_terms(273, 13) == 1310251077586319);
    lemma_partition_at_196();
    assert(partition_terms(273, 14) == 1313065648573910);
    lemma_partition_at_181();
    assert(partition_terms(273, 15) == 1312316174162129);
    lemma_partition_at_173();
    assert(partition_terms(273, 16) == 1311953847302234);
    lemma_partition_at_156();
    assert(partition_terms(273, 17) == 1312027079545993);
    lemma_partition_at_147();
    assert(partition_terms(273, 18) == 1312057468217971);
    lemma_partition_at_128();
    assert(partition_terms(273, 19) == 1312053117139371);
    lemma_partition_at_118();
    assert(partition_terms(273, 20) == 1312051635065228);
    lemma_partition_at_97();
    assert(partition_terms(273, 21) == 1312051768296158);
    lemma_partition_at_86();
    assert(partition_terms(273, 22) == 1312051802559120);
    lemma_partition_at_63();
    assert(partition_terms(273, 23) == 1312051801053621);
    lemma_partition_at_51();
    assert(partition_terms(273, 24) == 1312051800813678);
    lemma_partition_at_26();
    assert(partition_terms(273, 25) == 1312051800816114);
    lemma_partition_at_13();
    assert(partition_terms(273, 26) == 1312051800816215);
}

/// The recurrence at 274.
proof fn lemma_partition_at_274()
    ensures
        partition_number(274) == 1412749565173450,
{
    lemma_pentagonal_values();
    lemma_partition_terms_stable(274, 26, 274);
    assert(partition_terms(274, 0) == 0);
    lemma_partition_at_273();
    assert(partition_terms(274, 1) == 1312051800816215);
    lemma_partition_at_272();
    assert(partition_terms(274, 2) == 2530426150660548);
    lemma_partition_at_269();
    assert(partition_terms(274, 3) == 1555591780715923);
    lemma_partition_at_267();
    assert(partition_terms(274, 4) == 715980050349109);
    lemma_partition_at_262();
    assert(partition_terms(274, 5) == 1292652725296277);
    lemma_partition_at_259();
    assert(partition_terms(274, 6) == 1752198475744952);
    lemma_partition_at_252();
    assert(partition_terms(274, 7) == 1482965774492373);
    lemma_partition_at_248();
    assert(partition_terms(274, 8) == 1285239257810701);
    lemma_partition_at_239();
    assert(partition_terms(274, 9) == 1383102191514286);
    lemma_partition_at_234();
    assert(partition_terms(274, 10) == 1448953777484561);
    lemma_partition_at_223();
    assert(partition_terms(274, 11) == 1421801368558946);
    lemma_partition_at_217();
    assert(partition_terms(274, 12) == 1405199770451032);
    lemma_partition_at_204();
    assert(partition_terms(274, 13) == 1410789858768527);
    lemma_partition_at_197();
    assert(partition_terms(274, 14) == 1413858688647057);
    lemma_partition_at_182();
    assert(partition_terms(274, 15) == 1413038811738734);
    lemma_partition_at_174();
    assert(partition_terms(274, 16) == 1412641686663984);
    lemma_partition_at_157();
    assert(partition_terms(274, 17) == 1412722317628753);
    lemma_partition_at_148();
    assert(partition_terms(274, 18) == 1412755867048250);
    lemma_partition_at_129();
    assert(partition_terms(274, 19) == 1412751031776380);
    lemma_partition_at_119();
    assert(partition_terms(274, 20) == 1412749378107715);
    lemma_partition_at_98();
    assert(partition_terms(274, 21) == 1412749528305851);
    lemma_partition_at_87();
    assert(partition_terms(274, 22) == 1412749567193524);
    lemma_partition_at_64();
    assert(partition_terms(274, 23) == 1412749565451894);
    lemma_partition_at_52();
    assert(partition_terms(274, 24) == 1412749565170305);
    lemma_partition_at_27();
    assert(partition_terms(274, 25) == 1412749565173315);
    lemma_partition_at_14();
    assert(partition_terms(274, 26) == 1412749565173450);
}

/// The recurrence at 275.
proof fn lemma_partition_at_275()
    ensures
        partition_number(275) == 1520980492851175,
{
    lemma_pentagonal_values();
    lemma_partition_terms_stable(275, 26, 275);
    assert(partition_terms(275, 0) == 0);
    lemma_partition_at_274();
    assert(partition_terms(275, 1) == 1412749565173450);
    lemma_partition_at_273();
    assert(partition_terms(275, 2) == 2724801365989665);
    lemma_partition_at_270();
    assert(partition_terms(275, 3) == 1674603876058548);
    lemma_partition_at_268();
    assert(partition_terms(275, 4) == 769843767742188);
    lemma_partition_at_263();
    assert(partition_terms(275, 5) == 1391681184251803);
    lemma_partition_at_260();
    assert(partition_terms(275, 6) == 1887423119012649);
    lemma_partition_at_253();
    assert(partition_terms(275, 7) == 1596696161096537);
    lemma_partition_at_249();
    assert(partition_terms(275, 8) == 1383059241275912);
    lemma_partition_at_240();
    assert(partition_terms(275, 9) == 1488941487998645);
    lemma_partition_at_235();
    assert(partition_terms(275, 10) == 1560245673513564);
    lemma_partition_at_224();
    assert(partition_terms(275, 11) == 1530791123571814);
    lemma_partition_at_218();
    assert(partition_terms(275, 12) == 1512762941055143);
    lemma_partition_at_205();
    assert(partition_terms(275, 13) == 1518848194914403);
    lemma_partition_at_198();
    assert(partition_terms(275, 14) == 1522193560898101);
    lemma_partition_at_183();
    assert(partition_terms(275, 15) == 1521296876080574);
    lemma_partition_at_175();
    assert(partition_terms(275, 16) == 1520861718382744);
    lemma_partition_at_158();
    assert(partition_terms(275, 17) == 1520950470161546);
    lemma_partition_at_149();
    assert(partition_terms(275, 18) == 1520987497516746);
    lemma_partition_at_130();
    assert(partition_terms(275, 19) == 1520982126201346);
    lemma_partition_at_120();
    assert(partition_terms(275, 20) == 1520980281851786);
    lemma_partition_at_99();
    assert(partition_terms(275, 21) == 1520980451081661);
    lemma_partition_at_88();
    assert(partition_terms(275, 22) == 1520980495189770);
    lemma_partition_at_65();
    assert(partition_terms(275, 23) == 1520980493177212);
    lemma_partition_at_53();
    assert(partition_terms(275, 24) == 1520980492847281);
    lemma_partition_at_28();
    assert(partition_terms(275, 25) == 1520980492850999);
    lemma_partition_at_15();
    assert(partition_terms(275, 26) == 1520980492851175);
}

/// The recurrence at 276.
proof fn lemma_partition_at_276()
    ensures
        partition_number(276) == 1637293969337171,
{
    lemma_pentagonal_values();
    lemma_partition_terms_stable(276, 26, 276);
    assert(partition_terms(276, 0) == 0);
    lemma_partition_at_275();
    assert(partition_terms(276, 1) == 1520980492851175);
    lemma_partition_at_274();
    assert(partition_terms(276, 2) == 2933730058024625);
    lemma_partition_at_271();
    assert(partition_terms(276, 3) == 1802491554086019);
    lemma_partition_at_269();
    assert(partition_terms(276, 4) == 827657184141394);
    lemma_partition_at_264();
    assert(partition_terms(276, 5) == 1498105307201564);
    lemma_partition_at_261();
    assert(partition_terms(276, 6) == 2032820370110173);
    lemma_partition_at_254();
    assert(partition_terms(276, 7) == 1718928378803508);
    lemma_partition_at_250();
    assert(partition_terms(276, 8) == 1488134824438827);
    lemma_partition_at_241();
    assert(partition_terms(276, 9) == 1602675708991865);
    lemma_partition_at_236();
    assert(partition_terms(276, 10) == 1679871601655377);
    lemma_partition_at_225();
    assert(partition_terms(276, 11) == 1647925210959220);
    lemma_partition_at_219();
    assert(partition_terms(276, 12) == 1628351354798075);
    lemma_partition_at_206();
    assert(partition_terms(276, 13) == 1634974342506115);
    lemma_partition_at_199();
    assert(partition_terms(276, 14) == 1638620414938240);
    lemma_partition_at_184();
    assert(partition_terms(276, 15) == 1637639952057810);
    lemma_partition_at_176();
    assert(partition_terms(276, 16) == 1637163236200520);
    lemma_partition_at_159();
    assert(partition_terms(276, 17) == 1637260898929075);
    lemma_partition_at_150();
    assert(partition_terms(276, 18) == 1637301752164388);
    lemma_partition_at_131();
    assert(partition_terms(276, 19) == 1637295787624884);
    lemma_partition_at_121();
    assert(partition_terms(276, 20) == 1637293731476833);
    lemma_partition_at_100();
    assert(partition_terms(276, 21) == 1637293922046125);
    lemma_partition_at_89();
    assert(partition_terms(276, 22) == 1637293972042050);
    lemma_partition_at_66();
    assert(partition_terms(276, 23) == 1637293969718530);
    lemma_partition_at_54();
    assert(partition_terms(276, 24) == 1637293969332375);
    lemma_partition_at_29();
    assert(partition_terms(276, 25) == 1637293969336940);
    lemma_partition_at_16();
    assert(partition_terms(276, 26) == 1637293969337171);
}

/// The recurrence at 277.
proof fn lemma_partition_at_277()
    ensures
        partition_number(277) == 1762278433057269,
{
    lemma_pentagonal_values();
    lemma_partition_terms_stable(277, 26, 277);
    assert(partition_terms(277, 0) == 0);
    lemma_partition_at_276();
    assert(partition_terms(277, 1) == 1637293969337171);
    lemma_partition_at_275();
    assert(partition_terms(277, 2) == 3158274462188346);
    lemma_partition_at_272();
    assert(partition_terms(277, 3) == 1939900112344013);
    lemma_partition_at_270();
    assert(partition_terms(277, 4) == 889702622412896);
    lemma_partition_at_265();
    assert(partition_terms(277, 5) == 1612463576103268);
    lemma_partition_at_262();
    assert(partition_terms(277, 6) == 2189136251050436);
    lemma_partition_at_255();
    assert(partition_terms(277, 7) == 1850281986801756);
    lemma_partition_at_251();
    assert(partition_terms(277, 8) == 1600990535633197);
    lemma_partition_at_242();
    assert(partition_terms(277, 9) == 1724878978710456);
    lemma_partition_at_237();
    assert(partition_terms(277, 10) == 1808440082636327);
    lemma_partition_at_226();
    assert(partition_terms(277, 11) == 1773796956313808);
    lemma_partition_at_220();
    assert(partition_terms(277, 12) == 1752548677304441);
    lemma_partition_at_207();
    assert(partition_terms(277, 13) == 1759755519010931);
    lemma_partition_at_200();
    assert(partition_terms(277, 14) == 1763728518040319);
    lemma_partition_at_185();
    assert(partition_terms(277, 15) == 1762656694265982);
    lemma_partition_at_177();
    assert(partition_terms(277, 16) == 1762134578434787);
    lemma_partition_at_160();
    assert(partition_terms(277, 17) == 1762242016594253);
    lemma_partition_at_151();
    assert(partition_terms(277, 18) == 1762287077218835);
    lemma_partition_at_132();
    assert(partition_terms(277, 19) == 1762280456387946);
    lemma_partition_at_122();
    assert(partition_terms(277, 20) == 1762278165067034);
    lemma_partition_at_101();
    assert(partition_terms(277, 21) == 1762278379548160);
    lemma_partition_at_90();
    assert(partition_terms(277, 22) == 1762278436182333);
    lemma_partition_at_67();
    assert(partition_terms(277, 23) == 1762278433502644);
    lemma_partition_at_55();
    assert(partition_terms(277, 24) == 1762278433051368);
    lemma_partition_at_30();
    assert(partition_terms(277, 25) == 1762278433056972);
    lemma_partition_at_17();
    assert(partition_terms(277, 26) == 1762278433057269);
}

/// The recurrence at 278.
proof fn lemma_partition_at_278()
    ensures
        partition_number(278) == 1896564103591584,
{
    lemma_pentagonal_values();
    lemma_partition_terms_stable(278, 26, 278);
    assert(partition_terms(278, 0) == 0);
    lemma_partition_at_277();
    assert(partition_terms(278, 1) == 1762278433057269);
    lemma_partition_at_276();
    assert(partition_terms(278, 2) == 3399572402394440);
    lemma_partition_at_273();
    assert(partition_terms(278, 3) == 2087520601578225);
    lemma_partition_at_271();
    assert(partition_terms(278, 4) == 956282097639619);
    lemma_partition_at_266();
    assert(partition_terms(278, 5) == 1735332727201786);
    lemma_partition_at_263();
    assert(partition_terms(278, 6) == 2357170143711401);
    lemma_partition_at_256();
    assert(partition_terms(278, 7) == 1991420576840619);
    lemma_partition_at_252();
    assert(partition_terms(278, 8) == 1722187875588040);
    lemma_partition_at_243();
    assert(partition_terms(278, 9) == 1856166134932928);
    lemma_partition_at_238();
    assert(partition_terms(278, 10) == 1946602974601745);
    lemma_partition_at_227();
    assert(partition_terms(278, 11) == 1909041841019175);
    lemma_partition_at_221();
    assert(partition_terms(278, 12) == 1885979969845326);
    lemma_partition_at_208();
    assert(partition_terms(278, 13) == 1893820626071463);
    lemma_partition_at_201();
    assert(partition_terms(278, 14) == 1898148989730110);
    lemma_partition_at_186();
    assert(partition_terms(278, 15) == 1896977557037737);
    lemma_partition_at_178();
    assert(partition_terms(278, 16) == 1896405855432082);
    lemma_partition_at_161();
    assert(partition_terms(278, 17) == 1896524014500509);
    lemma_partition_at_152();
    assert(partition_terms(278, 18) == 1896573700788930);
    lemma_partition_at_133();
    assert(partition_terms(278, 19) == 1896566354159418);
    lemma_partition_at_123();
    assert(partition_terms(278, 20) == 1896563801821177);
    lemma_partition_at_102();
    assert(partition_terms(278, 21) == 1896564043086556);
    lemma_partition_at_91();
    assert(partition_terms(278, 22) == 1896564107198915);
    lemma_partition_at_68();
    assert(partition_terms(278, 23) == 1896564104111180);
    lemma_partition_at_56();
    assert(partition_terms(278, 24) == 1896564103584357);
    lemma_partition_at_31();
    assert(partition_terms(278, 25) == 1896564103591199);
    lemma_partition_at_18();
    assert(partition_terms(278, 26) == 1896564103591584);
}

/// The recurrence at 279.
proof fn lemma_partition_at_279()
    ensures
        partition_number(279) == 2040825852575075,
{
    lemma_pentagonal_values();
    lemma_partition_terms_stable(279, 26, 279);
    assert(partition_terms(279, 0) == 0);
    lemma_partition_at_278();
    assert(partition_terms(279, 1) == 1896564103591584);
    lemma_partition_at_277();
    assert(partition_terms(279, 2) == 3658842536648853);
    lemma_partition_at_274();
    assert(partition_terms(279, 3) == 2246092971475403);
    lemma_partition_at_272();
    assert(partition_terms(279, 4) == 1027718621631070);
    lemma_partition_at_267();
    assert(partition_terms(279, 5) == 1867330351997884);
    lemma_partition_at_264();
    assert(partition_terms(279, 6) == 2537778475058054);
    lemma_partition_at_257();
    assert(partition_terms(279, 7) == 2143054798402697);
    lemma_partition_at_253();
    assert(partition_terms(279, 8) == 1852327840486585);
    lemma_partition_at_244();
    assert(partition_terms(279, 9) == 1997195532983030);
    lemma_partition_at_239();
    assert(partition_terms(279, 10) == 2095058466686615);
    lemma_partition_at_228();
    assert(partition_terms(279, 11) == 2054340403059253);
    lemma_partition_at_222();
    assert(partition_terms(279, 12) == 2029314529299142);
    lemma_partition_at_209();
    assert(partition_terms(279, 13) == 2037843110601517);
    lemma_partition_at_202();
    assert(partition_terms(279, 14) == 2042557677487600);
    lemma_partition_at_187();
    assert(partition_terms(279, 15) == 2041277666445332);
    lemma_partition_at_179();
    assert(partition_terms(279, 16) == 2040651819692212);
    lemma_partition_at_162();
    assert(partition_terms(279, 17) == 2040781733596849);
    lemma_partition_at_153();
    assert(partition_terms(279, 18) == 2040836503933173);
    lemma_partition_at_134();
    assert(partition_terms(279, 19) == 2040828354892478);
    lemma_partition_at_124();
    assert(partition_terms(279, 20) == 2040825512951978);
    lemma_partition_at_103();
    assert(partition_terms(279, 21) == 2040825784200928);
    lemma_partition_at_92();
    assert(partition_terms(279, 22) == 2040825856734735);
    lemma_partition_at_69();
    assert(partition_terms(279, 23) == 2040825853180390);
    lemma_partition_at_57();
    assert(partition_terms(279, 24) == 2040825852566236);
    lemma_partition_at_32();
    assert(partition_terms(279, 25) == 2040825852574585);
    lemma_partition_at_19();
    assert(partition_terms(279, 26) == 2040825852575075);
}

/// The recurrence at 280.
proof fn lemma_partition_at_280()
    ensures
        partition_number(280) == 2195786311682516,
{
    lemma_pentagonal_values();
    lemma_partition_terms_stable(280, 26, 280);
    assert(partition_terms(280, 0) == 0);
    lemma_partition_at_279();
    assert(partition_terms(280, 1) == 2040825852575075);
    lemma_partition_at_278();
    assert(partition_terms(280, 2) == 3937389956166659);
    lemma_partition_at_275();
    assert(partition_terms(280, 3) == 2416409463315484);
    lemma_partition_at_273();
    assert(partition_terms(280, 4) == 1104357662499269);
    lemma_partition_at_268();
    assert(partition_terms(280, 5) == 2009117770815629);
    lemma_partition_at_265();
    assert(partition_terms(280, 6) == 2731878724506001);
    lemma_partition_at_258();
    assert(partition_terms(280, 7) == 2305945640096645);
    lemma_partition_at_254();
    assert(partition_terms(280, 8) == 1992053648789980);
    lemma_partition_at_245();
    assert(partition_terms(280, 9) == 2148672061317926);
    lemma_partition_at_240();
    assert(partition_terms(280, 10) == 2254554308040659);
    lemma_partition_at_229();
    assert(partition_terms(280, 11) == 2210421373156404);
    lemma_partition_at_223();
    assert(partition_terms(280, 12) == 2183268964230789);
    lemma_partition_at_210();
    assert(partition_terms(280, 13) == 2192544066806144);
    lemma_partition_at_203();
    assert(partition_terms(280, 14) == 2197678272094117);
    lemma_partition_at_188();
    assert(partition_terms(280, 15) == 2196279930348546);
    lemma_partition_at_180();
    assert(partition_terms(280, 16) == 2195594972957610);
    lemma_partition_at_163();
    assert(partition_terms(280, 17) == 2195737771953540);
    lemma_partition_at_154();
    assert(partition_terms(280, 18) == 2195798128626820);
    lemma_partition_at_135();
    assert(partition_terms(280, 19) == 2195789092790744);
    lemma_partition_at_125();
    assert(partition_terms(280, 20) == 2195785929663392);
    lemma_partition_at_104();
    assert(partition_terms(280, 21) == 2195786234464757);
    lemma_partition_at_93();
    assert(partition_terms(280, 22) == 2195786316474934);
    lemma_partition_at_70();
    assert(partition_terms(280, 23) == 2195786312386966);
    lemma_partition_at_58();
    assert(partition_terms(280, 24) == 2195786311671746);
    lemma_partition_at_33();
    assert(partition_terms(280, 25) == 2195786311681889);
    lemma_partition_at_20();
    assert(partition_terms(280, 26) == 2195786311682516);
}

/// The recurrence at 281.
proof fn lemma_partition_at_281()
    ensures
        partition_number(281) == 2362219145337711,
{
    lemma_pentagonal_values();
    lemma_partition_terms_stable(281, 26, 281);
    assert(partition_terms(281, 0) == 0);
    lemma_partition_at_280();
    assert(partition_terms(281, 1) == 2195786311682516);
    lemma_partition_at_279();
    assert(partition_terms(281, 2) == 4236612164257591);
    lemma_partition_at_276();
    assert(partition_terms(281, 3) == 2599318194920420);
    lemma_partition_at_274();
    assert(partition_terms(281, 4) == 1186568629746970);
    lemma_partition_at_269();
    assert(partition_terms(281, 5) == 2161402999691595);
    lemma_partition_at_266();
    assert(partition_terms(281, 6) == 2940453629253762);
    lemma_partition_at_259();
    assert(partition_terms(281, 7) == 2480907878805087);
    lemma_partition_at_255();
    assert(partition_terms(281, 8) == 2142053614556407);
    lemma_partition_at_246();
    assert(partition_terms(281, 9) == 2311350336947961);
    lemma_partition_at_241();
    assert(partition_terms(281, 10) == 2425891221500999);
    lemma_partition_at_230();
    assert(partition_terms(281, 11) == 2378064981755079);
    lemma_partition_at_224();
    assert(partition_terms(281, 12) == 2348610431813329);
    lemma_partition_at_211();
    assert(partition_terms(281, 13) == 2358695497699096);
    lemma_partition_at_204();
    assert(partition_terms(281, 14) == 2364285586016591);
    lemma_partition_at_189();
    assert(partition_terms(281, 15) == 2362758312416966);
    lemma_partition_at_181();
    assert(partition_terms(281, 16) == 2362008838005185);
    lemma_partition_at_164();
    assert(partition_terms(281, 17) == 2362165757480480);
    lemma_partition_at_155();
    assert(partition_terms(281, 18) == 2362232250662577);
    lemma_partition_at_136();
    assert(partition_terms(281, 19) == 2362222235080897);
    lemma_partition_at_126();
    assert(partition_terms(281, 20) == 2362218715858205);
    lemma_partition_at_105();
    assert(partition_terms(281, 21) == 2362219058183914);
    lemma_partition_at_94();
    assert(partition_terms(281, 22) == 2362219150853634);
    lemma_partition_at_71();
    assert(partition_terms(281, 23) == 2362219146156429);
    lemma_partition_at_59();
    assert(partition_terms(281, 24) == 2362219145324609);
    lemma_partition_at_34();
    assert(partition_terms(281, 25) == 2362219145336919);
    lemma_partition_at_21();
    assert(partition_terms(281, 26) == 2362219145337711);
}

/// The recurrence at 282.
proof fn lemma_partition_at_282()
    ensures
        partition_number(282) == 2540952590045698,
{
    lemma_pentagonal_values();
    lemma_partition_terms_stable(282, 26, 282);
    assert(partition_terms(282, 0) == 0);
    lemma_partition_at_281();
    assert(partition_terms(282, 1) == 2362219145337711);
    lemma_partition_at_280();
    assert(partition_terms(282, 2) == 4558005457020227);
    lemma_partition_at_277();
    assert(partition_terms(282, 3) == 2795727023962958);
    lemma_partition_at_275();
    assert(partition_terms(282, 4) == 1274746531111783);
    lemma_partition_at_270();
    assert(partition_terms(282, 5) == 2324944021042900);
    lemma_partition_at_267();
    assert(partition_terms(282, 6) == 3164555751409714);
    lemma_partition_at_260();
    assert(partition_terms(282, 7) == 2668813816648868);
    lemma_partition_at_256();
    assert(partition_terms(282, 8) == 2303064249778086);
    lemma_partition_at_247();
    assert(partition_terms(282, 9) == 2486038139632112);
    lemma_partition_at_242();
    assert(partition_terms(282, 10) == 2609926582709371);
    lemma_partition_at_231();
    assert(partition_terms(282, 11) == 2558106530870659);
    lemma_partition_at_225();
    assert(partition_terms(282, 12) == 2526160140174502);
    lemma_partition_at_212();
    assert(partition_terms(282, 13) == 2537123847379761);
    lemma_partition_at_205();
    assert(partition_terms(282, 14) == 2543209101239021);
    lemma_partition_at_190();
    assert(partition_terms(282, 15) == 2541541373834928);
    lemma_partition_at_182();
    assert(partition_terms(282, 16) == 2540721496926605);
    lemma_partition_at_165();
    assert(partition_terms(282, 17) == 2540893886726860);
    lemma_partition_at_156();
    assert(partition_terms(282, 18) == 2540967118970619);
    lemma_partition_at_137();
    assert(partition_terms(282, 19) == 2540956021325603);
    lemma_partition_at_127();
    assert(partition_terms(282, 20) == 2540952107461308);
    lemma_partition_at_106();
    assert(partition_terms(282, 21) == 2540952491737644);
    lemma_partition_at_95();
    assert(partition_terms(282, 22) == 2540952596389063);
    lemma_partition_at_72();
    assert(partition_terms(282, 23) == 2540952590996280);
    lemma_partition_at_60();
    assert(partition_terms(282, 24) == 2540952590029813);
    lemma_partition_at_35();
    assert(partition_terms(282, 25) == 2540952590044696);
    lemma_partition_at_22();
    assert(partition_terms(282, 26) == 2540952590045698);
}

/// The recurrence at 283.
proof fn lemma_partition_at_283()
    ensures
        partition_number(283) == 2732873183547535,
{
    lemma_pentagonal_values();
    lemma_partition_terms_stable(283, 26, 283);
    assert(partition_terms(283, 0) == 0);
    lemma_partition_at_282();
    assert(partition_terms(283, 1) == 2540952590045698);
    lemma_partition_at_281();
    assert(partition_terms(283, 2) == 4903171735383409);
    lemma_partition_at_278();
    assert(partition_terms(283, 3) == 3006607631791825);
    lemma_partition_at_276();
    assert(partition_terms(283, 4) == 1369313662454654);
    lemma_partition_at_271();
    assert(partition_terms(283, 5) == 2500552166393260);
    lemma_partition_at_268();
    assert(partition_terms(283, 6) == 3405312274709620);
    lemma_partition_at_261();
    assert(partition_terms(283, 7) == 2870597211801011);
    lemma_partition_at_257();
    assert(partition_terms(283, 8) == 2475873535145654);
    lemma_partition_at_248();
    assert(partition_terms(283, 9) == 2673600051827326);
    lemma_partition_at_243();
    assert(partition_terms(283, 10) == 2807578311172214);
    lemma_partition_at_232();
    assert(partition_terms(283, 11) == 2751440162501267);
    lemma_partition_at_226();
    assert(partition_terms(283, 12) == 2716797036178748);
    lemma_partition_at_213();
    assert(partition_terms(283, 13) == 2728713717415026);
    lemma_partition_at_206();
    assert(partition_terms(283, 14) == 2735336705123066);
    lemma_partition_at_191();
    assert(partition_terms(283, 15) == 2733516004022414);
    lemma_partition_at_183();
    assert(partition_terms(283, 16) == 2732619319204887);
    lemma_partition_at_166();
    assert(partition_terms(283, 17) == 2732808654027466);
    lemma_partition_at_157();
    assert(partition_terms(283, 18) == 2732889284992235);
    lemma_partition_at_138();
    assert(partition_terms(283, 19) == 2732876992650404);
    lemma_partition_at_128();
    assert(partition_terms(283, 20) == 2732872641571804);
    lemma_partition_at_107();
    assert(partition_terms(283, 21) == 2732873072721193);
    lemma_partition_at_96();
    assert(partition_terms(283, 22) == 2732873190835497);
    lemma_partition_at_73();
    assert(partition_terms(283, 23) == 2732873184649808);
    lemma_partition_at_61();
    assert(partition_terms(283, 24) == 2732873183528303);
    lemma_partition_at_36();
    assert(partition_terms(283, 25) == 2732873183546280);
    lemma_partition_at_23();
    assert(partition_terms(283, 26) == 2732873183547535);
}

/// The recurrence at 284.
proof fn lemma_partition_at_284()
    ensures
        partition_number(284) == 2938929793929555,
{
    lemma_pentagonal_values();
    lemma_partition_terms_stable(284, 26, 284);
    assert(partition_terms(284, 0) == 0);
    lemma_partition_at_283();
    assert(partition_terms(284, 1) == 2732873183547535);
    lemma_partition_at_282();
    assert(partition_terms(284, 2) == 5273825773593233);
    lemma_partition_at_279();
    assert(partition_terms(284, 3) == 3232999921018158);
    lemma_partition_at_277();
    assert(partition_terms(284, 4) == 1470721487960889);
    lemma_partition_at_272();
    assert(partition_terms(284, 5) == 2689095837805222);
    lemma_partition_at_269();
    assert(partition_terms(284, 6) == 3663930207749847);
    lemma_partition_at_262();
    assert(partition_terms(284, 7) == 3087257532802679);
    lemma_partition_at_258();
    assert(partition_terms(284, 8) == 2661324448393323);
    lemma_partition_at_249();
    assert(partition_terms(284, 9) == 2874961368213948);
    lemma_partition_at_244();
    assert(partition_terms(284, 10) == 3019829060710393);
    lemma_partition_at_233();
    assert(partition_terms(284, 11) == 2959022925272064);
    lemma_partition_at_227();
    assert(partition_terms(284, 12) == 2921461791689494);
    lemma_partition_at_214();
    assert(partition_terms(284, 13) == 2934411887615389);
    lemma_partition_at_207();
    assert(partition_terms(284, 14) == 2941618729321879);
    lemma_partition_at_192();
    assert(partition_terms(284, 15) == 2939631452465516);
    lemma_partition_at_184();
    assert(partition_terms(284, 16) == 2938650989585086);
    lemma_partition_at_167();
    assert(partition_terms(284, 17) == 2938858880005188);
    lemma_partition_at_158();
    assert(partition_terms(284, 18) == 2938947631783990);
    lemma_partition_at_139();
    assert(partition_terms(284, 19) == 2938934020834095);
    lemma_partition_at_129();
    assert(partition_terms(284, 20) == 2938929185562225);
    lemma_partition_at_108();
    assert(partition_terms(284, 21) == 2938929669065069);
    lemma_partition_at_97();
    assert(partition_terms(284, 22) == 2938929802295999);
    lemma_partition_at_74();
    assert(partition_terms(284, 23) == 2938929795206499);
    lemma_partition_at_62();
    assert(partition_terms(284, 24) == 2938929793906343);
    lemma_partition_at_37();
    assert(partition_terms(284, 25) == 2938929793927980);
    lemma_partition_at_24();
    assert(partition_terms(284, 26) == 2938929793929555);
}

/// The recurrence at 285.
proof fn lemma_partition_at_285()
    ensures
        partition_number(285) == 3160137867148997,
{
    lemma_pentagonal_values();
    lemma_partition_terms_stable(285, 26, 285);
    assert(partition_terms(285, 0) == 0);
    lemma_partition_at_284();
    assert(partition_terms(285, 1) == 2938929793929555);
    lemma_partition_at_283();
    assert(partition_terms(285, 2) == 5671802977477090);
    lemma_partition_at_280();
    assert(partition_terms(285, 3) == 3476016665794574);
    lemma_partition_at_278();
    assert(partition_terms(285, 4) == 1579452562202990);
    lemma_partition_at_273();
    assert(partition_terms(285, 5) == 2891504363019205);
    lemma_partition_at_270();
    assert(partition_terms(285, 6) == 3941701852950322);
    lemma_partition_at_263();
    assert(partition_terms(285, 7) == 3319864436440707);
    lemma_partition_at_259();
    assert(partition_terms(285, 8) == 2860318685992032);
    lemma_partition_at_250();
    assert(partition_terms(285, 9) == 3091112240356713);
    lemma_partition_at_245();
    assert(partition_terms(285, 10) == 3247730652884659);
    lemma_partition_at_234();
    assert(partition_terms(285, 11) == 3181879066914384);
    lemma_partition_at_228();
    assert(partition_terms(285, 12) == 3141161003287022);
    lemma_partition_at_215();
    assert(partition_terms(285, 13) == 3155231548986309);
    lemma_partition_at_208();
    assert(partition_terms(285, 14) == 3163072205212446);
    lemma_partition_at_193();
    assert(partition_terms(285, 15) == 3160903578106977);
    lemma_partition_at_185();
    assert(partition_terms(285, 16) == 3159831754332640);
    lemma_partition_at_168();
    assert(partition_terms(285, 17) == 3160059959065391);
    lemma_partition_at_159();
    assert(partition_terms(285, 18) == 3160157621793946);
    lemma_partition_at_140();
    assert(partition_terms(285, 19) == 3160142555915811);
    lemma_partition_at_130();
    assert(partition_terms(285, 20) == 3160137184600411);
    lemma_partition_at_109();
    assert(partition_terms(285, 21) == 3160137726546651);
    lemma_partition_at_98();
    assert(partition_terms(285, 22) == 3160137876744787);
    lemma_partition_at_75();
    assert(partition_terms(285, 23) == 3160137868626523);
    lemma_partition_at_63();
    assert(partition_terms(285, 24) == 3160137867121024);
    lemma_partition_at_38();
    assert(partition_terms(285, 25) == 3160137867147039);
    lemma_partition_at_25();
    assert(partition_terms(285, 26) == 3160137867148997);
}

/// The recurrence at 286.
proof fn lemma_partition_at_286()
    ensures
        partition_number(286) == 3397584011986773,
{
    lemma_pentagonal_values();
    lemma_partition_terms_stable(286, 26, 286);
    assert(partition_terms(286, 0) == 0);
    lemma_partition_at_285();
    assert(partition_terms(286, 1) == 3160137867148997);
    lemma_partition_at_284();
    assert(partition_terms(286, 2) == 6099067661078552);
    lemma_partition_at_281();
    assert(partition_terms(286, 3) == 3736848515740841);
    lemma_partition_at_279();
    assert(partition_terms(286, 4) == 1696022663165766);
    lemma_partition_at_274();
    assert(partition_terms(286, 5) == 3108772228339216);
    lemma_partition_at_271();
    assert(partition_terms(286, 6) == 4240010732277822);
    lemma_partition_at_264();
    assert(partition_terms(286, 7) == 3569562609217652);
    lemma_partition_at_260();
    assert(partition_terms(286, 8) == 3073820674456806);
    lemma_partition_at_251();
    assert(partition_terms(286, 9) == 3323112125625365);
    lemma_partition_at_246();
    assert(partition_terms(286, 10) == 3492408848016919);
    lemma_partition_at_235();
    assert(partition_terms(286, 11) == 3421104662502000);
    lemma_partition_at_229();
    assert(partition_terms(286, 12) == 3376971727617745);
    lemma_partition_at_216();
    assert(partition_terms(286, 13) == 3392256878866226);
    lemma_partition_at_209();
    assert(partition_terms(286, 14) == 3400785460168601);
    lemma_partition_at_194();
    assert(partition_terms(286, 15) == 3398419437426756);
    lemma_partition_at_186();
    assert(partition_terms(286, 16) == 3397248004734383);
    lemma_partition_at_169();
    assert(partition_terms(286, 17) == 3397498443659498);
    lemma_partition_at_160();
    assert(partition_terms(286, 18) == 3397605881818964);
    lemma_partition_at_141();
    assert(partition_terms(286, 19) == 3397589211129756);
    lemma_partition_at_131();
    assert(partition_terms(286, 20) == 3397583246590252);
    lemma_partition_at_110();
    assert(partition_terms(286, 21) == 3397583853753998);
    lemma_partition_at_99();
    assert(partition_terms(286, 22) == 3397584022983873);
    lemma_partition_at_76();
    assert(partition_terms(286, 23) == 3397584013694782);
    lemma_partition_at_64();
    assert(partition_terms(286, 24) == 3397584011953152);
    lemma_partition_at_39();
    assert(partition_terms(286, 25) == 3397584011984337);
    lemma_partition_at_26();
    assert(partition_terms(286, 26) == 3397584011986773);
}

/// The recurrence at 287.
proof fn lemma_partition_at_287()
    ensures
        partition_number(287) == 3652430836071053,
{
    lemma_pentagonal_values();
    lemma_partition_terms_stable(287, 27, 287);
    assert(partition_terms(287, 0) == 0);
    lemma_partition_at_286();
    assert(partition_terms(287, 1) == 3397584011986773);
    lemma_partition_at_285();
    assert(partition_terms(287, 2) == 6557721879135770);
    lemma_partition_at_282();
    assert(partition_terms(287, 3) == 4016769289090072);
    lemma_partition_at_280();
    assert(partition_terms(287, 4) == 1820982977407556);
    lemma_partition_at_275();
    assert(partition_terms(287, 5) == 3341963470258731);
    lemma_partition_at_272();
    assert(partition_terms(287, 6) == 4560337820103064);
    lemma_partition_at_265();
    assert(partition_terms(287, 7) == 3837576866412692);
    lemma_partition_at_261();
    assert(partition_terms(287, 8) == 3302861803504083);
    lemma_partition_at_252();
    assert(partition_terms(287, 9) == 3572094504756662);
    lemma_partition_at_247();
    assert(partition_terms(287, 10) == 3755068394610688);
    lemma_partition_at_236();
    assert(partition_terms(287, 11) == 3677872501947176);
    lemma_partition_at_230();
    assert(partition_terms(287, 12) == 3630046262201256);
    lemma_partition_at_217();
    assert(partition_terms(287, 13) == 3646647860309170);
    lemma_partition_at_210();
    assert(partition_terms(287, 14) == 3655922962884525);
    lemma_partition_at_195();
    assert(partition_terms(287, 15) == 3653342122671552);
    lemma_partition_at_187();
    assert(partition_terms(287, 16) == 3652062111629284);
    lemma_partition_at_170();
    assert(partition_terms(287, 17) == 3652336880246414);
    lemma_partition_at_161();
    assert(partition_terms(287, 18) == 3652455039314841);
    lemma_partition_at_142();
    assert(partition_terms(287, 19) == 3652436599021521);
    lemma_partition_at_132();
    assert(partition_terms(287, 20) == 3652429978190632);
    lemma_partition_at_111();
    assert(partition_terms(287, 21) == 3652430658093835);
    lemma_partition_at_100();
    assert(partition_terms(287, 22) == 3652430848663127);
    lemma_partition_at_77();
    assert(partition_terms(287, 23) == 3652430838043264);
    lemma_partition_at_65();
    assert(partition_terms(287, 24) == 3652430836030706);
    lemma_partition_at_40();
    assert(partition_terms(287, 25) == 3652430836068044);
    lemma_partition_at_27();
    assert(partition_terms(287, 26) == 3652430836071054);
    lemma_partition_at_0();
    assert(partition_terms(287, 27) == 3652430836071053);
}

/// The recurrence at 288.
proof fn lemma_partition_at_288()
    ensures
        partition_number(288) == 3925922161489422,
{
    lemma_pentagonal_values();
    lemma_partition_terms_stable(288, 27, 288);
    assert(partition_terms(288, 0) == 0);
    lemma_partition_at_287();
    assert(partition_terms(288, 1) == 3652430836071053);
    lemma_partition_at_286();
    assert(partition_terms(288, 2) == 7050014848057826);
    lemma_partition_at_283();
    assert(partition_terms(288, 3) == 4317141664510291);
    lemma_partition_at_281();
    assert(partition_terms(288, 4) == 1954922519172580);
    lemma_partition_at_276();
    assert(partition_terms(288, 5) == 3592216488509751);
    lemma_partition_at_273();
    assert(partition_terms(288, 6) == 4904268289325966);
    lemma_partition_at_266();
    assert(partition_terms(288, 7) == 4125217659763799);
    lemma_partition_at_262();
    assert(partition_terms(288, 8) == 3548544984816631);
    lemma_partition_at_253();
    assert(partition_terms(288, 9) == 3839271942732743);
    lemma_partition_at_248();
    assert(partition_terms(288, 10) == 4036998459414415);
    lemma_partition_at_237();
    assert(partition_terms(288, 11) == 3953437355488544);
    lemma_partition_at_231();
    assert(partition_terms(288, 12) == 3901617303649832);
    lemma_partition_at_218();
    assert(partition_terms(288, 13) == 3919645486166503);
    lemma_partition_at_211();
    assert(partition_terms(288, 14) == 3929730552052270);
    lemma_partition_at_196();
    assert(partition_terms(288, 15) == 3926915981064679);
    lemma_partition_at_188();
    assert(partition_terms(288, 16) == 3925517639319108);
    lemma_partition_at_171();
    assert(partition_terms(288, 17) == 3925819024121156);
    lemma_partition_at_162();
    assert(partition_terms(288, 18) == 3925948938025793);
    lemma_partition_at_143();
    assert(partition_terms(288, 19) == 3925928547043036);
    lemma_partition_at_133();
    assert(partition_terms(288, 20) == 3925921200413524);
    lemma_partition_at_112();
    assert(partition_terms(288, 21) == 3925921961415680);
    lemma_partition_at_101();
    assert(partition_terms(288, 22) == 3925922175896806);
    lemma_partition_at_78();
    assert(partition_terms(288, 23) == 3925922163764642);
    lemma_partition_at_66();
    assert(partition_terms(288, 24) == 3925922161441122);
    lemma_partition_at_41();
    assert(partition_terms(288, 25) == 3925922161485705);
    lemma_partition_at_28();
    assert(partition_terms(288, 26) == 3925922161489423);
    lemma_partition_at_1();
    assert(partition_terms(288, 27) == 3925922161489422);
}

/// The recurrence at 289.
proof fn lemma_partition_at_289()
    ensures
        partition_number(289) == 4219388528587095,
{
    lemma_pentagonal_values();
    lemma_partition_terms_stable(289, 27, 289);
    assert(partition_terms(289, 0) == 0);
    lemma_partition_at_288();
    assert(partition_terms(289, 1) == 3925922161489422);
    lemma_partition_at_287();
    assert(partition_terms(289, 2) == 7578352997560475);
    lemma_partition_at_284();
    assert(partition_terms(289, 3) == 4639423203630920);
    lemma_partition_at_282();
    assert(partition_terms(289, 4) == 2098470613585222);
    lemma_partition_at_277();
    assert(partition_terms(289, 5) == 3860749046642491);
    lemma_partition_at_274();
    assert(partition_terms(289, 6) == 5273498611815941);
    lemma_partition_at_267();
    assert(partition_terms(289, 7) == 4433886881449127);
    lemma_partition_at_263();
    assert(partition_terms(289, 8) == 3812049464939512);
    lemma_partition_at_254();
    assert(partition_terms(289, 9) == 4125941456246177);
    lemma_partition_at_249();
    assert(partition_terms(289, 10) == 4339578376066802);
    lemma_partition_at_238();
    assert(partition_terms(289, 11) == 4249141536397985);
    lemma_partition_at_232();
    assert(partition_terms(289, 12) == 4193003387727038);
    lemma_partition_at_219();
    assert(partition_terms(289, 13) == 4212577243888183);
    lemma_partition_at_212();
    assert(partition_terms(289, 14) == 4223540951093442);
    lemma_partition_at_197();
    assert(partition_terms(289, 15) == 4220472121214912);
    lemma_partition_at_189();
    assert(partition_terms(289, 16) == 4218944847615287);
    lemma_partition_at_172();
    assert(partition_terms(289, 17) == 4219275343114900);
    lemma_partition_at_163();
    assert(partition_terms(289, 18) == 4219418142110830);
    lemma_partition_at_144();
    assert(partition_terms(289, 19) == 4219395601456385);
    lemma_partition_at_134();
    assert(partition_terms(289, 20) == 4219387452415690);
    lemma_partition_at_113();
    assert(partition_terms(289, 21) == 4219388303792318);
    lemma_partition_at_102();
    assert(partition_terms(289, 22) == 4219388545057697);
    lemma_partition_at_79();
    assert(partition_terms(289, 23) == 4219388531209047);
    lemma_partition_at_67();
    assert(partition_terms(289, 24) == 4219388528529358);
    lemma_partition_at_42();
    assert(partition_terms(289, 25) == 4219388528582532);
    lemma_partition_at_29();
    assert(partition_terms(289, 26) == 4219388528587097);
    lemma_partition_at_2();
    assert(partition_terms(289, 27) == 4219388528587095);
}

/// The recurrence at 290.
proof fn lemma_partition_at_290()
    ensures
        partition_number(290) == 4534253126900886,
{
    lemma_pentagonal_values();
    lemma_partition_terms_stable(290, 27, 290);
    assert(partition_terms(290, 0) == 0);
    lemma_partition_at_289();
    assert(partition_terms(290, 1) == 4219388528587095);
    lemma_partition_at_288();
    assert(partition_terms(290, 2) == 8145310690076517);
    lemma_partition_at_285();
    assert(partition_terms(290, 3) == 4985172822927520);
    lemma_partition_at_283();
    assert(partition_terms(290, 4) == 2252299639379985);
    lemma_partition_at_278();
    assert(partition_terms(290, 5) == 4148863742971569);
    lemma_partition_at_275();
    assert(partition_terms(290, 6) == 5669844235822744);
    lemma_partition_at_268();
    assert(partition_terms(290, 7) == 4765084127506384);
    lemma_partition_at_264();
    assert(partition_terms(290, 8) == 4094636004446214);
    lemma_partition_at_255();
    assert(partition_terms(290, 9) == 4433490268694894);
    lemma_partition_at_250();
    assert(partition_terms(290, 10) == 4664283823059575);
    lemma_partition_at_239();
    assert(partition_terms(290, 11) == 4566420889355990);
    lemma_partition_at_233();
    assert(partition_terms(290, 12) == 4505614753917661);
    lemma_partition_at_220();
    assert(partition_terms(290, 13) == 4526863032927028);
    lemma_partition_at_213();
    assert(partition_terms(290, 14) == 4538779714163306);
    lemma_partition_at_198();
    assert(partition_terms(290, 15) == 4535434348179608);
    lemma_partition_at_190();
    assert(partition_terms(290, 16) == 4533766620775515);
    lemma_partition_at_173();
    assert(partition_terms(290, 17) == 4534128947635410);
    lemma_partition_at_164();
    assert(partition_terms(290, 18) == 4534285867110705);
    lemma_partition_at_145();
    assert(partition_terms(290, 19) == 4534260958252696);
    lemma_partition_at_135();
    assert(partition_terms(290, 20) == 4534251922416620);
    lemma_partition_at_114();
    assert(partition_terms(290, 21) == 4534252874467285);
    lemma_partition_at_103();
    assert(partition_terms(290, 22) == 4534253145716235);
    lemma_partition_at_80();
    assert(partition_terms(290, 23) == 4534253129919759);
    lemma_partition_at_68();
    assert(partition_terms(290, 24) == 4534253126832024);
    lemma_partition_at_43();
    assert(partition_terms(290, 25) == 4534253126895285);
    lemma_partition_at_30();
    assert(partition_terms(290, 26) == 4534253126900889);
    lemma_partition_at_3();
    assert(partition_terms(290, 27) == 4534253126900886);
}

/// The recurrence at 291.
proof fn lemma_partition_at_291()
    ensures
        partition_number(291) == 4872038056472084,
{
    lemma_pentagonal_values();
    lemma_partition_terms_stable(291, 27, 291);
    assert(partition_terms(291, 0) == 0);
    lemma_partition_at_290();
    assert(partition_terms(291, 1) == 4534253126900886);
    lemma_partition_at_289();
    assert(partition_terms(291, 2) == 8753641655487981);
    lemma_partition_at_286();
    assert(partition_terms(291, 3) == 5356057643501208);
    lemma_partition_at_284();
    assert(partition_terms(291, 4) == 2417127849571653);
    lemma_partition_at_279();
    assert(partition_terms(291, 5) == 4457953702146728);
    lemma_partition_at_276();
    assert(partition_terms(291, 6) == 6095247671483899);
    lemma_partition_at_269();
    assert(partition_terms(291, 7) == 5120413301539274);
    lemma_partition_at_265();
    assert(partition_terms(291, 8) == 4397652347848902);
    lemma_partition_at_256();
    assert(partition_terms(291, 9) == 4763401914719684);
    lemma_partition_at_251();
    assert(partition_terms(291, 10) == 5012693365888243);
    lemma_partition_at_240();
    assert(partition_terms(291, 11) == 4906811119165510);
    lemma_partition_at_234();
    assert(partition_terms(291, 12) == 4840959533195235);
    lemma_partition_at_221();
    assert(partition_terms(291, 13) == 4864021404369084);
    lemma_partition_at_214();
    assert(partition_terms(291, 14) == 4876971500294979);
    lemma_partition_at_199();
    assert(partition_terms(291, 15) == 4873325427862854);
    lemma_partition_at_191();
    assert(partition_terms(291, 16) == 4871504726762202);
    lemma_partition_at_174();
    assert(partition_terms(291, 17) == 4871901851836952);
    lemma_partition_at_165();
    assert(partition_terms(291, 18) == 4872074241637207);
    lemma_partition_at_146();
    assert(partition_terms(291, 19) == 4872046724584608);
    lemma_partition_at_136();
    assert(partition_terms(291, 20) == 4872036709002928);
    lemma_partition_at_115();
    assert(partition_terms(291, 21) == 4872037773147379);
    lemma_partition_at_104();
    assert(partition_terms(291, 22) == 4872038077948744);
    lemma_partition_at_81();
    assert(partition_terms(291, 23) == 4872038059944417);
    lemma_partition_at_69();
    assert(partition_terms(291, 24) == 4872038056390072);
    lemma_partition_at_44();
    assert(partition_terms(291, 25) == 4872038056465247);
    lemma_partition_at_31();
    assert(partition_terms(291, 26) == 4872038056472089);
    lemma_partition_at_4();
    assert(partition_terms(291, 27) == 4872038056472084);
}

/// The recurrence at 292.
proof fn lemma_partition_at_292()
    ensures
        partition_number(292) == 5234371069753672,
{
    lemma_pentagonal_values();
    lemma_partition_terms_stable(292, 27, 292);
    assert(partition_terms(292, 0) == 0);
    lemma_partition_at_291();
    assert(partition_terms(292, 1) == 4872038056472084);
    lemma_partition_at_290();
    assert(partition_terms(292, 2) == 9406291183372970);
    lemma_partition_at_287();
    assert(partition_terms(292, 3) == 5753860347301917);
    lemma_partition_at_285();
    assert(partition_terms(292, 4) == 2593722480152920);
    lemma_partition_at_280();
    assert(partition_terms(292, 5) == 4789508791835436);
    lemma_partition_at_277();
    assert(partition_terms(292, 6) == 6551787224892705);
    lemma_partition_at_270();
    assert(partition_terms(292, 7) == 5501589734961588);
    lemma_partition_at_266();
    assert(partition_terms(292, 8) == 4722539105399421);
    lemma_partition_at_257();
    assert(partition_terms(292, 9) == 5117262782054778);
    lemma_partition_at_252();
    assert(partition_terms(292, 10) == 5386495483307357);
    lemma_partition_at_241();
    assert(partition_terms(292, 11) == 5271954598754319);
    lemma_partition_at_235();
    assert(partition_terms(292, 12) == 5200650413239400);
    lemma_partition_at_222();
    assert(partition_terms(292, 13) == 5225676286999511);
    lemma_partition_at_215();
    assert(partition_terms(292, 14) == 5239746832698798);
    lemma_partition_at_200();
    assert(partition_terms(292, 15) == 5235773833669410);
    lemma_partition_at_192();
    assert(partition_terms(292, 16) == 5233786556813047);
    lemma_partition_at_175();
    assert(partition_terms(292, 17) == 5234221714510877);
    lemma_partition_at_166();
    assert(partition_terms(292, 18) == 5234411049333456);
    lemma_partition_at_147();
    assert(partition_terms(292, 19) == 5234380660661478);
    lemma_partition_at_137();
    assert(partition_terms(292, 20) == 5234369563016462);
    lemma_partition_at_116();
    assert(partition_terms(292, 21) == 5234370751924710);
    lemma_partition_at_105();
    assert(partition_terms(292, 22) == 5234371094250419);
    lemma_partition_at_82();
    assert(partition_terms(292, 23) == 5234371073744164);
    lemma_partition_at_70();
    assert(partition_terms(292, 24) == 5234371069656196);
    lemma_partition_at_45();
    assert(partition_terms(292, 25) == 5234371069745330);
    lemma_partition_at_32();
    assert(partition_terms(292, 26) == 5234371069753679);
    lemma_partition_at_5();
    assert(partition_terms(292, 27) == 5234371069753672);
}

/// The recurrence at 293.
proof fn lemma_partition_at_293()
    ensures
        partition_number(293) == 5622992691950605,
{
    lemma_pentagonal_values();
    lemma_partition_terms_stable(293, 27, 293);
    assert(partition_terms(293, 0) == 0);
    lemma_partition_at_292();
    assert(partition_terms(293, 1) == 5234371069753672);
    lemma_partition_at_291();
    assert(partition_terms(293, 2) == 10106409126225756);
    lemma_partition_at_288();
    assert(partition_terms(293, 3) == 6180486964736334);
    lemma_partition_at_286();
    assert(partition_terms(293, 4) == 2782902952749561);
    lemma_partition_at_281();
    assert(partition_terms(293, 5) == 5145122098087272);
    lemma_partition_at_278();
    assert(partition_terms(293, 6) == 7041686201678856);
    lemma_partition_at_271();
    assert(partition_terms(293, 7) == 5910447697740250);
    lemma_partition_at_267();
    assert(partition_terms(293, 8) == 5070835967373436);
    lemma_partition_at_258();
    assert(partition_terms(293, 9) == 5496769051782792);
    lemma_partition_at_253();
    assert(partition_terms(293, 10) == 5787496009698904);
    lemma_partition_at_242();
    assert(partition_terms(293, 11) == 5663607566621645);
    lemma_partition_at_236();
    assert(partition_terms(293, 12) == 5586411673958133);
    lemma_partition_at_223();
    assert(partition_terms(293, 13) == 5613564082883748);
    lemma_partition_at_216();
    assert(partition_terms(293, 14) == 5628849234132229);
    lemma_partition_at_201();
    assert(partition_terms(293, 15) == 5624520870473582);
    lemma_partition_at_193();
    assert(partition_terms(293, 16) == 5622352243368113);
    lemma_partition_at_176();
    assert(partition_terms(293, 17) == 5622828959225403);
    lemma_partition_at_167();
    assert(partition_terms(293, 18) == 5623036849645505);
    lemma_partition_at_148();
    assert(partition_terms(293, 19) == 5623003300226008);
    lemma_partition_at_138();
    assert(partition_terms(293, 20) == 5622991007884177);
    lemma_partition_at_117();
    assert(partition_terms(293, 21) == 5622992335594253);
    lemma_partition_at_106();
    assert(partition_terms(293, 22) == 5622992719870589);
    lemma_partition_at_83();
    assert(partition_terms(293, 23) == 5622992696532120);
    lemma_partition_at_71();
    assert(partition_terms(293, 24) == 5622992691834915);
    lemma_partition_at_46();
    assert(partition_terms(293, 25) == 5622992691940473);
    lemma_partition_at_33();
    assert(partition_terms(293, 26) == 5622992691950616);
    lemma_partition_at_6();
    assert(partition_terms(293, 27) == 5622992691950605);
}

/// The recurrence at 294.
proof fn lemma_partition_at_294()
    ensures
        partition_number(294) == 6039763882095515,
{
    lemma_pentagonal_values();
    lemma_partition_terms_stable(294, 27, 294);
    assert(partition_terms(294, 0) == 0);
    lemma_partition_at_293();
    assert(partition_terms(294, 1) == 5622992691950605);
    lemma_partition_at_292();
    assert(partition_terms(294, 2) == 10857363761704277);
    lemma_partition_at_289();
    assert(partition_terms(294, 3) == 6637975233117182);
    lemma_partition_at_287();
    assert(partition_terms(294, 4) == 2985544397046129);
    lemma_partition_at_282();
    assert(partition_terms(294, 5) == 5526496987091827);
    lemma_partition_at_279();
    assert(partition_terms(294, 6) == 7567322839666902);
    lemma_partition_at_272();
    assert(partition_terms(294, 7) == 6348948489822569);
    lemma_partition_at_268();
    assert(partition_terms(294, 8) == 5444188381506209);
    lemma_partition_at_259();
    assert(partition_terms(294, 9) == 5903734131954884);
    lemma_partition_at_254();
    assert(partition_terms(294, 10) == 6217626123261549);
    lemma_partition_at_243();
    assert(partition_terms(294, 11) == 6083647863916661);
    lemma_partition_at_237();
    assert(partition_terms(294, 12) == 6000086759990790);
    lemma_partition_at_224();
    assert(partition_terms(294, 13) == 6029541309932540);
    lemma_partition_at_217();
    assert(partition_terms(294, 14) == 6046142908040454);
    lemma_partition_at_202();
    assert(partition_terms(294, 15) == 6041428341154371);
    lemma_partition_at_194();
    assert(partition_terms(294, 16) == 6039062318412526);
    lemma_partition_at_177();
    assert(partition_terms(294, 17) == 6039584434243721);
    lemma_partition_at_168();
    assert(partition_terms(294, 18) == 6039812638976472);
    lemma_partition_at_149();
    assert(partition_terms(294, 19) == 6039775611621272);
    lemma_partition_at_139();
    assert(partition_terms(294, 20) == 6039762000671377);
    lemma_partition_at_118();
    assert(partition_terms(294, 21) == 6039763482745520);
    lemma_partition_at_107();
    assert(partition_terms(294, 22) == 6039763913894909);
    lemma_partition_at_84();
    assert(partition_terms(294, 23) == 6039763887351249);
    lemma_partition_at_72();
    assert(partition_terms(294, 24) == 6039763881958466);
    lemma_partition_at_47();
    assert(partition_terms(294, 25) == 6039763882083220);
    lemma_partition_at_34();
    assert(partition_terms(294, 26) == 6039763882095530);
    lemma_partition_at_7();
    assert(partition_terms(294, 27) == 6039763882095515);
}

/// The recurrence at 295.
proof fn lemma_partition_at_295()
    ensures
        partition_number(295) == 6486674127079088,
{
    lemma_pentagonal_values();
    lemma_partition_terms_stable(295, 27, 295);
    assert(partition_terms(295, 0) == 0);
    lemma_partition_at_294();
    assert(partition_terms(295, 1) == 6039763882095515);
    lemma_partition_at_293();
    assert(partition_terms(295, 2) == 11662756574046120);
    lemma_partition_at_290();
    assert(partition_terms(295, 3) == 7128503447145234);
    lemma_partition_at_288();
    assert(partition_terms(295, 4) == 3202581285655812);
    lemma_partition_at_283();
    assert(partition_terms(295, 5) == 5935454469203347);
    lemma_partition_at_280();
    assert(partition_terms(295, 6) == 8131240780885863);
    lemma_partition_at_273();
    assert(partition_terms(295, 7) == 6819188980069648);
    lemma_partition_at_269();
    assert(partition_terms(295, 8) == 5844354610125023);
    lemma_partition_at_260();
    assert(partition_terms(295, 9) == 6340096544885869);
    lemma_partition_at_255();
    assert(partition_terms(295, 10) == 6678950809134549);
    lemma_partition_at_244();
    assert(partition_terms(295, 11) == 6534083116638104);
    lemma_partition_at_238();
    assert(partition_terms(295, 12) == 6443646276969287);
    lemma_partition_at_225();
    assert(partition_terms(295, 13) == 6475592667665444);
    lemma_partition_at_218();
    assert(partition_terms(295, 14) == 6493620850182115);
    lemma_partition_at_203();
    assert(partition_terms(295, 15) == 6488486644894142);
    lemma_partition_at_195();
    assert(partition_terms(295, 16) == 6485905804681169);
    lemma_partition_at_178();
    assert(partition_terms(295, 17) == 6486477506286824);
    lemma_partition_at_169();
    assert(partition_terms(295, 18) == 6486727945211939);
    lemma_partition_at_150();
    assert(partition_terms(295, 19) == 6486687091976626);
    lemma_partition_at_140();
    assert(partition_terms(295, 20) == 6486672026098491);
    lemma_partition_at_119();
    assert(partition_terms(295, 21) == 6486673679767156);
    lemma_partition_at_108();
    assert(partition_terms(295, 22) == 6486674163270000);
    lemma_partition_at_85();
    assert(partition_terms(295, 23) == 6486674133102643);
    lemma_partition_at_73();
    assert(partition_terms(295, 24) == 6486674126916954);
    lemma_partition_at_48();
    assert(partition_terms(295, 25) == 6486674127064227);
    lemma_partition_at_35();
    assert(partition_terms(295, 26) == 6486674127079110);
    lemma_partition_at_8();
    assert(partition_terms(295, 27) == 6486674127079088);
}

/// The recurrence at 296.
proof fn lemma_partition_at_296()
    ensures
        partition_number(296) == 6965850144195831,
{
    lemma_pentagonal_values();
    lemma_partition_terms_stable(296, 27, 296);
    assert(partition_terms(296, 0) == 0);
    lemma_partition_at_295();
    assert(partition_terms(296, 1) == 6486674127079088);
    lemma_partition_at_294();
    assert(partition_terms(296, 2) == 12526438009174603);
    lemma_partition_at_291();
    assert(partition_terms(296, 3) == 7654399952702519);
    lemma_partition_at_289();
    assert(partition_terms(296, 4) == 3435011424115424);
    lemma_partition_at_284();
    assert(partition_terms(296, 5) == 6373941218044979);
    lemma_partition_at_281();
    assert(partition_terms(296, 6) == 8736160363382690);
    lemma_partition_at_274();
    assert(partition_terms(296, 7) == 7323410798209240);
    lemma_partition_at_270();
    assert(partition_terms(296, 8) == 6273213308278123);
    lemma_partition_at_261();
    assert(partition_terms(296, 9) == 6807928371186732);
    lemma_partition_at_256();
    assert(partition_terms(296, 10) == 7173677938057514);
    lemma_partition_at_245();
    assert(partition_terms(296, 11) == 7017059525529568);
    lemma_partition_at_239();
    assert(partition_terms(296, 12) == 6919196591825983);
    lemma_partition_at_226();
    assert(partition_terms(296, 13) == 6953839718148502);
    lemma_partition_at_219();
    assert(partition_terms(296, 14) == 6973413574309647);
    lemma_partition_at_204();
    assert(partition_terms(296, 15) == 6967823485992152);
    lemma_partition_at_196();
    assert(partition_terms(296, 16) == 6965008915004561);
    lemma_partition_at_179();
    assert(partition_terms(296, 17) == 6965634761757681);
    lemma_partition_at_170();
    assert(partition_terms(296, 18) == 6965909530374811);
    lemma_partition_at_151();
    assert(partition_terms(296, 19) == 6965864469750229);
    lemma_partition_at_141();
    assert(partition_terms(296, 20) == 6965847799061021);
    lemma_partition_at_120();
    assert(partition_terms(296, 21) == 6965849643410581);
    lemma_partition_at_109();
    assert(partition_terms(296, 22) == 6965850185356821);
    lemma_partition_at_86();
    assert(partition_terms(296, 23) == 6965850151093859);
    lemma_partition_at_74();
    assert(partition_terms(296, 24) == 6965850144004359);
    lemma_partition_at_49();
    assert(partition_terms(296, 25) == 6965850144177884);
    lemma_partition_at_36();
    assert(partition_terms(296, 26) == 6965850144195861);
    lemma_partition_at_9();
    assert(partition_terms(296, 27) == 6965850144195831);
}

/// The recurrence at 297.
proof fn lemma_partition_at_297()
    ensures
        partition_number(297) == 7479565078510584,
{
    lemma_pentagonal_values();
    lemma_partition_terms_stable(297, 27, 297);
    assert(partition_terms(297, 0) == 0);
    lemma_partition_at_296();
    assert(partition_terms(297, 1) == 6965850144195831);
    lemma_partition_at_295();
    assert(partition_terms(297, 2) == 13452524271274919);
    lemma_partition_at_292();
    assert(partition_terms(297, 3) == 8218153201521247);
    lemma_partition_at_290();
    assert(partition_terms(297, 4) == 3683900074620361);
    lemma_partition_at_285();
    assert(partition_terms(297, 5) == 6844037941769358);
    lemma_partition_at_282();
    assert(partition_terms(297, 6) == 9384990531815056);
    lemma_partition_at_275();
    assert(partition_terms(297, 7) == 7864010038963881);
    lemma_partition_at_271();
    assert(partition_terms(297, 8) == 6732771535025275);
    lemma_partition_at_262();
    assert(partition_terms(297, 9) == 7309444209972443);
    lemma_partition_at_257();
    assert(partition_terms(297, 10) == 7704167886627800);
    lemma_partition_at_246();
    assert(partition_terms(297, 11) == 7534871164236246);
    lemma_partition_at_240();
    assert(partition_terms(297, 12) == 7428988917513513);
    lemma_partition_at_227();
    assert(partition_terms(297, 13) == 7466550051096083);
    lemma_partition_at_220();
    assert(partition_terms(297, 14) == 7487798330105450);
    lemma_partition_at_205();
    assert(partition_terms(297, 15) == 7481713076246190);
    lemma_partition_at_197();
    assert(partition_terms(297, 16) == 7478644246367660);
    lemma_partition_at_180();
    assert(partition_terms(297, 17) == 7479329203758596);
    lemma_partition_at_171();
    assert(partition_terms(297, 18) == 7479630588560644);
    lemma_partition_at_152();
    assert(partition_terms(297, 19) == 7479580902272223);
    lemma_partition_at_142();
    assert(partition_terms(297, 20) == 7479562461978903);
    lemma_partition_at_121();
    assert(partition_terms(297, 21) == 7479564518126954);
    lemma_partition_at_110();
    assert(partition_terms(297, 22) == 7479565125290700);
    lemma_partition_at_87();
    assert(partition_terms(297, 23) == 7479565086403027);
    lemma_partition_at_75();
    assert(partition_terms(297, 24) == 7479565078284763);
    lemma_partition_at_50();
    assert(partition_terms(297, 25) == 7479565078488989);
    lemma_partition_at_37();
    assert(partition_terms(297, 26) == 7479565078510626);
    lemma_partition_at_10();
    assert(partition_terms(297, 27) == 7479565078510584);
}

/// The recurrence at 298.
proof fn lemma_partition_at_298()
    ensures
        partition_number(298) == 8030248384943040,
{
    lemma_pentagonal_values();
    lemma_partition_terms_stable(298, 27, 298);
    assert(partition_terms(298, 0) == 0);
    lemma_partition_at_297();
    assert(partition_terms(298, 1) == 7479565078510584);
    lemma_partition_at_296();
    assert(partition_terms(298, 2) == 14445415222706415);
    lemma_partition_at_293();
    assert(partition_terms(298, 3) == 8822422530755810);
    lemma_partition_at_291();
    assert(partition_terms(298, 4) == 3950384474283726);
    lemma_partition_at_286();
    assert(partition_terms(298, 5) == 7347968486270499);
    lemma_partition_at_283();
    assert(partition_terms(298, 6) == 10080841669818034);
    lemma_partition_at_276();
    assert(partition_terms(298, 7) == 8443547700480863);
    lemma_partition_at_272();
    assert(partition_terms(298, 8) == 7225173350636530);
    lemma_partition_at_263();
    assert(partition_terms(298, 9) == 7847010767146145);
    lemma_partition_at_258();
    assert(partition_terms(298, 10) == 8272943851555501);
    lemma_partition_at_247();
    assert(partition_terms(298, 11) == 8089969961701475);
    lemma_partition_at_241();
    assert(partition_terms(298, 12) == 7975429077148437);
    lemma_partition_at_228();
    assert(partition_terms(298, 13) == 8016147140775799);
    lemma_partition_at_221();
    assert(partition_terms(298, 14) == 8039209011949648);
    lemma_partition_at_206();
    assert(partition_terms(298, 15) == 8032586024241608);
    lemma_partition_at_198();
    assert(partition_terms(298, 16) == 8029240658257910);
    lemma_partition_at_181();
    assert(partition_terms(298, 17) == 8029990132669691);
    lemma_partition_at_172();
    assert(partition_terms(298, 18) == 8030320628169304);
    lemma_partition_at_153();
    assert(partition_terms(298, 19) == 8030265857832980);
    lemma_partition_at_143();
    assert(partition_terms(298, 20) == 8030245466850223);
    lemma_partition_at_122();
    assert(partition_terms(298, 21) == 8030247758171135);
    lemma_partition_at_111();
    assert(partition_terms(298, 22) == 8030248438074338);
    lemma_partition_at_88();
    assert(partition_terms(298, 23) == 8030248393966229);
    lemma_partition_at_76();
    assert(partition_terms(298, 24) == 8030248384677138);
    lemma_partition_at_51();
    assert(partition_terms(298, 25) == 8030248384917081);
    lemma_partition_at_38();
    assert(partition_terms(298, 26) == 8030248384943096);
    lemma_partition_at_11();
    assert(partition_terms(298, 27) == 8030248384943040);
}

/// The recurrence at 299.
proof fn lemma_partition_at_299()
    ensures
        partition_number(299) == 8620496275465025,
{
    lemma_pentagonal_values();
    lemma_partition_terms_stable(299, 27, 299);
    assert(partition_terms(299, 0) == 0);
    lemma_partition_at_298();
    assert(partition_terms(299, 1) == 8030248384943040);
    lemma_partition_at_297();
    assert(partition_terms(299, 2) == 15509813463453624);
    lemma_partition_at_294();
    assert(partition_terms(299, 3) == 9470049581358109);
    lemma_partition_at_292();
    assert(partition_terms(299, 4) == 4235678511604437);
    lemma_partition_at_287();
    assert(partition_terms(299, 5) == 7888109347675490);
    lemma_partition_at_284();
    assert(partition_terms(299, 6) == 10827039141605045);
    lemma_partition_at_277();
    assert(partition_terms(299, 7) == 9064760708547776);
    lemma_partition_at_273();
    assert(partition_terms(299, 8) == 7752708907731561);
    lemma_partition_at_264();
    assert(partition_terms(299, 9) == 8423157030791731);
    lemma_partition_at_259();
    assert(partition_terms(299, 10) == 8882702781240406);
    lemma_partition_at_248();
    assert(partition_terms(299, 11) == 8684976264558734);
    lemma_partition_at_242();
    assert(partition_terms(299, 12) == 8561087821481475);
    lemma_partition_at_229();
    assert(partition_terms(299, 13) == 8605220756365730);
    lemma_partition_at_222();
    assert(partition_terms(299, 14) == 8630246630125841);
    lemma_partition_at_207();
    assert(partition_terms(299, 15) == 8623039788419351);
    lemma_partition_at_199();
    assert(partition_terms(299, 16) == 8619393715987226);
    lemma_partition_at_182();
    assert(partition_terms(299, 17) == 8620213592895549);
    lemma_partition_at_173();
    assert(partition_terms(299, 18) == 8620575919755444);
    lemma_partition_at_154();
    assert(partition_terms(299, 19) == 8620515563082164);
    lemma_partition_at_144();
    assert(partition_terms(299, 20) == 8620493022427719);
    lemma_partition_at_123();
    assert(partition_terms(299, 21) == 8620495574765960);
    lemma_partition_at_112();
    assert(partition_terms(299, 22) == 8620496335768116);
    lemma_partition_at_89();
    assert(partition_terms(299, 23) == 8620496285772191);
    lemma_partition_at_77();
    assert(partition_terms(299, 24) == 8620496275152328);
    lemma_partition_at_52();
    assert(partition_terms(299, 25) == 8620496275433917);
    lemma_partition_at_39();
    assert(partition_terms(299, 26) == 8620496275465102);
    lemma_partition_at_12();
    assert(partition_terms(299, 27) == 8620496275465025);
}

/// The recurrence at 300.
proof fn lemma_partition_at_300()
    ensures
        partition_number(300) == 9253082936723602,
{
    lemma_pentagonal_values();
    lemma_partition_terms_stable(300, 27, 300);
    assert(partition_terms(300, 0) == 0);
    lemma_partition_at_299();
    assert(partition_terms(300, 1) == 8620496275465025);
    lemma_partition_at_298();
    assert(partition_terms(300, 2) == 16650744660408065);
    lemma_partition_at_295();
    assert(partition_terms(300, 3) == 10164070533328977);
    lemma_partition_at_293();
    assert(partition_terms(300, 4) == 4541077841378372);
    lemma_partition_at_288();
    assert(partition_terms(300, 5) == 8467000002867794);
    lemma_partition_at_285();
    assert(partition_terms(300, 6) == 11627137870016791);
    lemma_partition_at_278();
    assert(partition_terms(300, 7) == 9730573766425207);
    lemma_partition_at_274();
    assert(partition_terms(300, 8) == 8317824201251757);
    lemma_partition_at_265();
    assert(partition_terms(300, 9) == 9040585154942129);
    lemma_partition_at_260();
    assert(partition_terms(300, 10) == 9536327089702975);
    lemma_partition_at_249();
    assert(partition_terms(300, 11) == 9322690169882350);
    lemma_partition_at_243();
    assert(partition_terms(300, 12) == 9188711910537462);
    lemma_partition_at_230();
    assert(partition_terms(300, 13) == 9236538150283382);
    lemma_partition_at_223();
    assert(partition_terms(300, 14) == 9263690559208997);
    lemma_partition_at_208();
    assert(partition_terms(300, 15) == 9255849902982860);
    lemma_partition_at_200();
    assert(partition_terms(300, 16) == 9251876903953472);
    lemma_partition_at_183();
    assert(partition_terms(300, 17) == 9252773588770999);
    lemma_partition_at_174();
    assert(partition_terms(300, 18) == 9253170713845749);
    lemma_partition_at_155();
    assert(partition_terms(300, 19) == 9253104220663652);
    lemma_partition_at_145();
    assert(partition_terms(300, 20) == 9253079311805643);
    lemma_partition_at_124();
    assert(partition_terms(300, 21) == 9253082153746143);
    lemma_partition_at_113();
    assert(partition_terms(300, 22) == 9253083005122771);
    lemma_partition_at_90();
    assert(partition_terms(300, 23) == 9253082948488598);
    lemma_partition_at_78();
    assert(partition_terms(300, 24) == 9253082936356434);
    lemma_partition_at_53();
    assert(partition_terms(300, 25) == 9253082936686365);
    lemma_partition_at_40();
    assert(partition_terms(300, 26) == 9253082936723703);
    lemma_partition_at_13();
    assert(partition_terms(300, 27) == 9253082936723602);
}

/// The recurrence at 301.
proof fn lemma_partition_at_301()
    ensures
        partition_number(301) == 9930972392403501,
{
    lemma_pentagonal_values();
    lemma_partition_terms_stable(301, 28, 301);
    assert(partition_terms(301, 0) == 0);
    lemma_partition_at_300();
    assert(partition_terms(301, 1) == 9253082936723602);
    lemma_partition_at_299();
    assert(partition_terms(301, 2) == 17873579212188627);
    lemma_partition_at_296();
    assert(partition_terms(301, 3) == 10907729067992796);
    lemma_partition_at_294();
    assert(partition_terms(301, 4) == 4867965185897281);
    lemma_partition_at_289();
    assert(partition_terms(301, 5) == 9087353714484376);
    lemma_partition_at_286();
    assert(partition_terms(301, 6) == 12484937726471149);
    lemma_partition_at_279();
    assert(partition_terms(301, 7) == 10444111873896074);
    lemma_partition_at_275();
    assert(partition_terms(301, 8) == 8923131381044899);
    lemma_partition_at_266();
    assert(partition_terms(301, 9) == 9702182010607066);
    lemma_partition_at_261();
    assert(partition_terms(301, 10) == 10236897073515675);
    lemma_partition_at_250();
    assert(partition_terms(301, 11) == 10006103519150994);
    lemma_partition_at_244();
    assert(partition_terms(301, 12) == 9861235826654549);
    lemma_partition_at_231();
    assert(partition_terms(301, 13) == 9913055878493261);
    lemma_partition_at_224();
    assert(partition_terms(301, 14) == 9942510428435011);
    lemma_partition_at_209();
    assert(partition_terms(301, 15) == 9933981847132636);
    lemma_partition_at_201();
    assert(partition_terms(301, 16) == 9929653483473989);
    lemma_partition_at_184();
    assert(partition_terms(301, 17) == 9930633946354419);
    lemma_partition_at_175();
    assert(partition_terms(301, 18) == 9931069104052249);
    lemma_partition_at_156();
    assert(partition_terms(301, 19) == 9930995871808490);
    lemma_partition_at_146();
    assert(partition_terms(301, 20) == 9930968354755891);
    lemma_partition_at_125();
    assert(partition_terms(301, 21) == 9930971517883243);
    lemma_partition_at_114();
    assert(partition_terms(301, 22) == 9930972469933908);
    lemma_partition_at_91();
    assert(partition_terms(301, 23) == 9930972405821549);
    lemma_partition_at_79();
    assert(partition_terms(301, 24) == 9930972391972899);
    lemma_partition_at_54();
    assert(partition_terms(301, 25) == 9930972392359054);
    lemma_partition_at_41();
    assert(partition_terms(301, 26) == 9930972392403637);
    lemma_partition_at_14();
    assert(partition_terms(301, 27) == 9930972392403502);
    lemma_partition_at_0();
    assert(partition_terms(301, 28) == 9930972392403501);
}

/// The recurrence at 302.
proof fn lemma_partition_at_302()
    ensures
        partition_number(302) == 10657331232548839,
{
    lemma_pentagonal_values();
    lemma_partition_terms_stable(302, 28, 302);
    assert(partition_terms(302, 0) == 0);
    lemma_partition_at_301();
    assert(partition_terms(302, 1) == 9930972392403501);
    lemma_partition_at_300();
    assert(partition_terms(302, 2) == 19184055329127103);
    lemma_partition_at_297();
    assert(partition_terms(302, 3) == 11704490250616519);
    lemma_partition_at_295();
    assert(partition_terms(302, 4) == 5217816123537431);
    lemma_partition_at_290();
    assert(partition_terms(302, 5) == 9752069250438317);
    lemma_partition_at_287();
    assert(partition_terms(302, 6) == 13404500086509370);
    lemma_partition_at_280();
    assert(partition_terms(302, 7) == 11208713774826854);
    lemma_partition_at_276();
    assert(partition_terms(302, 8) == 9571419805489683);
    lemma_partition_at_267();
    assert(partition_terms(302, 9) == 10411031535856497);
    lemma_partition_at_262();
    assert(partition_terms(302, 10) == 10987704210803665);
    lemma_partition_at_251();
    assert(partition_terms(302, 11) == 10738412759635106);
    lemma_partition_at_245();
    assert(partition_terms(302, 12) == 10581794347107160);
    lemma_partition_at_232();
    assert(partition_terms(302, 13) == 10637932495778107);
    lemma_partition_at_225();
    assert(partition_terms(302, 14) == 10669878886474264);
    lemma_partition_at_210();
    assert(partition_terms(302, 15) == 10660603783898909);
    lemma_partition_at_202();
    assert(partition_terms(302, 16) == 10655889217012826);
    lemma_partition_at_185();
    assert(partition_terms(302, 17) == 10656961040787163);
    lemma_partition_at_176();
    assert(partition_terms(302, 18) == 10657437756644453);
    lemma_partition_at_157();
    assert(partition_terms(302, 19) == 10657357125679684);
    lemma_partition_at_147();
    assert(partition_terms(302, 20) == 10657326737007706);
    lemma_partition_at_126();
    assert(partition_terms(302, 21) == 10657330256230398);
    lemma_partition_at_115();
    assert(partition_terms(302, 22) == 10657331320374849);
    lemma_partition_at_92();
    assert(partition_terms(302, 23) == 10657331247841042);
    lemma_partition_at_80();
    assert(partition_terms(302, 24) == 10657331232044566);
    lemma_partition_at_55();
    assert(partition_terms(302, 25) == 10657331232495842);
    lemma_partition_at_42();
    assert(partition_terms(302, 26) == 10657331232549016);
    lemma_partition_at_15();
    assert(partition_terms(302, 27) == 10657331232548840);
    lemma_partition_at_1();
    assert(partition_terms(302, 28) == 10657331232548839);
}

/// The recurrence at 303.
proof fn lemma_partition_at_303()
    ensures
        partition_number(303) == 11435542077822104,
{
    lemma_pentagonal_values();
    lemma_partition_terms_stable(303, 28, 303);
    assert(partition_terms(303, 0) == 0);
    lemma_partition_at_302();
    assert(partition_terms(303, 1) == 10657331232548839);
    lemma_partition_at_301();
    assert(partition_terms(303, 2) == 20588303624952340);
    lemma_partition_at_298();
    assert(partition_terms(303, 3) == 12558055240009300);
    lemma_partition_at_296();
    assert(partition_terms(303, 4) == 5592205095813469);
    lemma_partition_at_291();
    assert(partition_terms(303, 5) == 10464243152285553);
    lemma_partition_at_288();
    assert(partition_terms(303, 6) == 14390165313774975);
    lemma_partition_at_281();
    assert(partition_terms(303, 7) == 12027946168437264);
    lemma_partition_at_277();
    assert(partition_terms(303, 8) == 10265667735379995);
    lemma_partition_at_268();
    assert(partition_terms(303, 9) == 11170427843696355);
    lemma_partition_at_263();
    assert(partition_terms(303, 10) == 11792265260205970);
    lemma_partition_at_252();
    assert(partition_terms(303, 11) == 11523032558953391);
    lemma_partition_at_246();
    assert(partition_terms(303, 12) == 11353735836561837);
    lemma_partition_at_233();
    assert(partition_terms(303, 13) == 11414541972000166);
    lemma_partition_at_226();
    assert(partition_terms(303, 14) == 11449185098322685);
    lemma_partition_at_211();
    assert(partition_terms(303, 15) == 11439100032436918);
    lemma_partition_at_203();
    assert(partition_terms(303, 16) == 11433965827148945);
    lemma_partition_at_186();
    assert(partition_terms(303, 17) == 11435137259841318);
    lemma_partition_at_177();
    assert(partition_terms(303, 18) == 11435659375672513);
    lemma_partition_at_158();
    assert(partition_terms(303, 19) == 11435570623893711);
    lemma_partition_at_148();
    assert(partition_terms(303, 20) == 11435537074474214);
    lemma_partition_at_127();
    assert(partition_terms(303, 21) == 11435540988338509);
    lemma_partition_at_116();
    assert(partition_terms(303, 22) == 11435542177246757);
    lemma_partition_at_93();
    assert(partition_terms(303, 23) == 11435542095236580);
    lemma_partition_at_81();
    assert(partition_terms(303, 24) == 11435542077232253);
    lemma_partition_at_56();
    assert(partition_terms(303, 25) == 11435542077759076);
    lemma_partition_at_43();
    assert(partition_terms(303, 26) == 11435542077822337);
    lemma_partition_at_16();
    assert(partition_terms(303, 27) == 11435542077822106);
    lemma_partition_at_2();
    assert(partition_terms(303, 28) == 11435542077822104);
}

/// The recurrence at 304.
proof fn lemma_partition_at_304()
    ensures
        partition_number(304) == 12269218019229465,
{
    lemma_pentagonal_values();
    lemma_partition_terms_stable(304, 28, 304);
    assert(partition_terms(304, 0) == 0);
    lemma_partition_at_303();
    assert(partition_terms(304, 1) == 11435542077822104);
    lemma_partition_at_302();
    assert(partition_terms(304, 2) == 22092873310370943);
    lemma_partition_at_299();
    assert(partition_terms(304, 3) == 13472377034905918);
    lemma_partition_at_297();
    assert(partition_terms(304, 4) == 5992811956395334);
    lemma_partition_at_292();
    assert(partition_terms(304, 5) == 11227183026149006);
    lemma_partition_at_289();
    assert(partition_terms(304, 6) == 15446571554736101);
    lemma_partition_at_282();
    assert(partition_terms(304, 7) == 12905618964690403);
    lemma_partition_at_278();
    assert(partition_terms(304, 8) == 11009054861098819);
    lemma_partition_at_269();
    assert(partition_terms(304, 9) == 11983889231043444);
    lemma_partition_at_264();
    assert(partition_terms(304, 10) == 12654337354103614);
    lemma_partition_at_253();
    assert(partition_terms(304, 11) == 12363610396187502);
    lemma_partition_at_247();
    assert(partition_terms(304, 12) == 12180636506333476);
    lemma_partition_at_234();
    assert(partition_terms(304, 13) == 12246488092303751);
    lemma_partition_at_227();
    assert(partition_terms(304, 14) == 12284049225886321);
    lemma_partition_at_212();
    assert(partition_terms(304, 15) == 12273085518681062);
    lemma_partition_at_204();
    assert(partition_terms(304, 16) == 12267495430363567);
    lemma_partition_at_187();
    assert(partition_terms(304, 17) == 12268775441405835);
    lemma_partition_at_178();
    assert(partition_terms(304, 18) == 12269347143011490);
    lemma_partition_at_159();
    assert(partition_terms(304, 19) == 12269249480282935);
    lemma_partition_at_149();
    assert(partition_terms(304, 20) == 12269212452927735);
    lemma_partition_at_128();
    assert(partition_terms(304, 21) == 12269216804006335);
    lemma_partition_at_117();
    assert(partition_terms(304, 22) == 12269218131716411);
    lemma_partition_at_94();
    assert(partition_terms(304, 23) == 12269218039046691);
    lemma_partition_at_82();
    assert(partition_terms(304, 24) == 12269218018540436);
    lemma_partition_at_57();
    assert(partition_terms(304, 25) == 12269218019154590);
    lemma_partition_at_44();
    assert(partition_terms(304, 26) == 12269218019229765);
    lemma_partition_at_17();
    assert(partition_terms(304, 27) == 12269218019229468);
    lemma_partition_at_3();
    assert(partition_terms(304, 28) == 12269218019229465);
}

/// The recurrence at 305.
proof fn lemma_partition_at_305()
    ensures
        partition_number(305) == 13162217895057704,
{
    lemma_pentagonal_values();
    lemma_partition_terms_stable(305, 28, 305);
    assert(partition_terms(305, 0) == 0);
    lemma_partition_at_304();
    assert(partition_terms(305, 1) == 12269218019229465);
    lemma_partition_at_303();
    assert(partition_terms(305, 2) == 23704760097051569);
    lemma_partition_at_300();
    assert(partition_terms(305, 3) == 14451677160327967);
    lemma_partition_at_298();
    assert(partition_terms(305, 4) == 6421428775384927);
    lemma_partition_at_293();
    assert(partition_terms(305, 5) == 12044421467335532);
    lemma_partition_at_290();
    assert(partition_terms(305, 6) == 16578674594236418);
    lemma_partition_at_283();
    assert(partition_terms(305, 7) == 13845801410688883);
    lemma_partition_at_279();
    assert(partition_terms(305, 8) == 11804975558113808);
    lemma_partition_at_270();
    assert(partition_terms(305, 9) == 12855173048044925);
    lemma_partition_at_265();
    assert(partition_terms(305, 10) == 13577934001735297);
    lemma_partition_at_254();
    assert(partition_terms(305, 11) == 13264042010428632);
    lemma_partition_at_248();
    assert(partition_terms(305, 12) == 13066315493746960);
    lemma_partition_at_235();
    assert(partition_terms(305, 13) == 13137619679261879);
    lemma_partition_at_228();
    assert(partition_terms(305, 14) == 13178337742889241);
    lemma_partition_at_213();
    assert(partition_terms(305, 15) == 13166421061652963);
    lemma_partition_at_205();
    assert(partition_terms(305, 16) == 13160335807793703);
    lemma_partition_at_188();
    assert(partition_terms(305, 17) == 13161734149539274);
    lemma_partition_at_179();
    assert(partition_terms(305, 18) == 13162359996292394);
    lemma_partition_at_160();
    assert(partition_terms(305, 19) == 13162252558132928);
    lemma_partition_at_150();
    assert(partition_terms(305, 20) == 13162211704897615);
    lemma_partition_at_129();
    assert(partition_terms(305, 21) == 13162216540169485);
    lemma_partition_at_118();
    assert(partition_terms(305, 22) == 13162218022243628);
    lemma_partition_at_95();
    assert(partition_terms(305, 23) == 13162217917592209);
    lemma_partition_at_83();
    assert(partition_terms(305, 24) == 13162217894253740);
    lemma_partition_at_58();
    assert(partition_terms(305, 25) == 13162217894968960);
    lemma_partition_at_45();
    assert(partition_terms(305, 26) == 13162217895058094);
    lemma_partition_at_18();
    assert(partition_terms(305, 27) == 13162217895057709);
    lemma_partition_at_4();
    assert(partition_terms(305, 28) == 13162217895057704);
}

/// The recurrence at 306.
proof fn lemma_partition_at_306()
    ensures
        partition_number(306) == 14118662665280005,
{
    lemma_pentagonal_values();
    lemma_partition_terms_stable(306, 28, 306);
    assert(partition_terms(306, 0) == 0);
    lemma_partition_at_305();
    assert(partition_terms(306, 1) == 13162217895057704);
    lemma_partition_at_304();
    assert(partition_terms(306, 2) == 25431435914287169);
    lemma_partition_at_301();
    assert(partition_terms(306, 3) == 15500463521883668);
    lemma_partition_at_299();
    assert(partition_terms(306, 4) == 6879967246418643);
    lemma_partition_at_294();
    assert(partition_terms(306, 5) == 12919731128514158);
    lemma_partition_at_291();
    assert(partition_terms(306, 6) == 17791769184986242);
    lemma_partition_at_284();
    assert(partition_terms(306, 7) == 14852839391056687);
    lemma_partition_at_280();
    assert(partition_terms(306, 8) == 12657053079374171);
    lemma_partition_at_271();
    assert(partition_terms(306, 9) == 13788291583312777);
    lemma_partition_at_266();
    assert(partition_terms(306, 10) == 14567342212874944);
    lemma_partition_at_255();
    assert(partition_terms(306, 11) == 14228487948626264);
    lemma_partition_at_249();
    assert(partition_terms(306, 12) == 14014851028805639);
    lemma_partition_at_236();
    assert(partition_terms(306, 13) == 14092046921469151);
    lemma_partition_at_229();
    assert(partition_terms(306, 14) == 14136179856353406);
    lemma_partition_at_214();
    assert(partition_terms(306, 15) == 14123229760427511);
    lemma_partition_at_206();
    assert(partition_terms(306, 16) == 14116606772719471);
    lemma_partition_at_189();
    assert(partition_terms(306, 17) == 14118134046319096);
    lemma_partition_at_180();
    assert(partition_terms(306, 18) == 14118819003710032);
    lemma_partition_at_161();
    assert(partition_terms(306, 19) == 14118700844641605);
    lemma_partition_at_151();
    assert(partition_terms(306, 20) == 14118655784017023);
    lemma_partition_at_130();
    assert(partition_terms(306, 21) == 14118661155332423);
    lemma_partition_at_119();
    assert(partition_terms(306, 22) == 14118662809001088);
    lemma_partition_at_96();
    assert(partition_terms(306, 23) == 14118662690886784);
    lemma_partition_at_84();
    assert(partition_terms(306, 24) == 14118662664343124);
    lemma_partition_at_59();
    assert(partition_terms(306, 25) == 14118662665174944);
    lemma_partition_at_46();
    assert(partition_terms(306, 26) == 14118662665280502);
    lemma_partition_at_19();
    assert(partition_terms(306, 27) == 14118662665280012);
    lemma_partition_at_5();
    assert(partition_terms(306, 28) == 14118662665280005);
}

/// The recurrence at 307.
proof fn lemma_partition_at_307()
    ensures
        partition_number(307) == 15142952738857194,
{
    lemma_pentagonal_values();
    lemma_partition_terms_stable(307, 28, 307);
    assert(partition_terms(307, 0) == 0);
    lemma_partition_at_306();
    assert(partition_terms(307, 1) == 14118662665280005);
    lemma_partition_at_305();
    assert(partition_terms(307, 2) == 27280880560337709);
    lemma_partition_at_302();
    assert(partition_terms(307, 3) == 16623549327788870);
    lemma_partition_at_300();
    assert(partition_terms(307, 4) == 7370466391065268);
    lemma_partition_at_295();
    assert(partition_terms(307, 5) == 13857140518144356);
    lemma_partition_at_292();
    assert(partition_terms(307, 6) == 19091511587898028);
    lemma_partition_at_285();
    assert(partition_terms(307, 7) == 15931373720749031);
    lemma_partition_at_281();
    assert(partition_terms(307, 8) == 13569154575411320);
    lemma_partition_at_272();
    assert(partition_terms(307, 9) == 14787528925255653);
    lemma_partition_at_267();
    assert(partition_terms(307, 10) == 15627140655622467);
    lemma_partition_at_256();
    assert(partition_terms(307, 11) == 15261391088751685);
    lemma_partition_at_250();
    assert(partition_terms(307, 12) == 15030597534387004);
    lemma_partition_at_237();
    assert(partition_terms(307, 13) == 15114158638312875);
    lemma_partition_at_230();
    assert(partition_terms(307, 14) == 15161984878058795);
    lemma_partition_at_215();
    assert(partition_terms(307, 15) == 15147914332359508);
    lemma_partition_at_207();
    assert(partition_terms(307, 16) == 15140707490653018);
    lemma_partition_at_190();
    assert(partition_terms(307, 17) == 15142375218057111);
    lemma_partition_at_181();
    assert(partition_terms(307, 18) == 15143124692468892);
    lemma_partition_at_162();
    assert(partition_terms(307, 19) == 15142994778564255);
    lemma_partition_at_152();
    assert(partition_terms(307, 20) == 15142945092275834);
    lemma_partition_at_131();
    assert(partition_terms(307, 21) == 15142951056815338);
    lemma_partition_at_120();
    assert(partition_terms(307, 22) == 15142952901164898);
    lemma_partition_at_97();
    assert(partition_terms(307, 23) == 15142952767933968);
    lemma_partition_at_85();
    assert(partition_terms(307, 24) == 15142952737766611);
    lemma_partition_at_60();
    assert(partition_terms(307, 25) == 15142952738733078);
    lemma_partition_at_47();
    assert(partition_terms(307, 26) == 15142952738857832);
    lemma_partition_at_20();
    assert(partition_terms(307, 27) == 15142952738857205);
    lemma_partition_at_6();
    assert(partition_terms(307, 28) == 15142952738857194);
}

/// The recurrence at 308.
proof fn lemma_partition_at_308()
    ensures
        partition_number(308) == 16239786535829663,
{
    lemma_pentagonal_values();
    lemma_partition_terms_stable(308, 28, 308);
    assert(partition_terms(308, 0) == 0);
    lemma_partition_at_307();
    assert(partition_terms(308, 1) == 15142952738857194);
    lemma_partition_at_306();
    assert(partition_terms(308, 2) == 29261615404137199);
    lemma_partition_at_303();
    assert(partition_terms(308, 3) == 17826073326315095);
    lemma_partition_at_301();
    assert(partition_terms(308, 4) == 7895100933911594);
    lemma_partition_at_296();
    assert(partition_terms(308, 5) == 14860951078107425);
    lemma_partition_at_293();
    assert(partition_terms(308, 6) == 20483943770058030);
    lemma_partition_at_286();
    assert(partition_terms(308, 7) == 17086359758071257);
    lemma_partition_at_282();
    assert(partition_terms(308, 8) == 14545407168025559);
    lemma_partition_at_273();
    assert(partition_terms(308, 9) == 15857458968841774);
    lemma_partition_at_268();
    assert(partition_terms(308, 10) == 16762219077158134);
    lemma_partition_at_257();
    assert(partition_terms(308, 11) == 16367495400502777);
    lemma_partition_at_251();
    assert(partition_terms(308, 12) == 16118203949334218);
    lemma_partition_at_238();
    assert(partition_terms(308, 13) == 16208640789003035);
    lemma_partition_at_231();
    assert(partition_terms(308, 14) == 16260460840841747);
    lemma_partition_at_216();
    assert(partition_terms(308, 15) == 16245175689593266);
    lemma_partition_at_208();
    assert(partition_terms(308, 16) == 16237335033367129);
    lemma_partition_at_191();
    assert(partition_terms(308, 17) == 16239155734467781);
    lemma_partition_at_182();
    assert(partition_terms(308, 18) == 16239975611376104);
    lemma_partition_at_163();
    assert(partition_terms(308, 19) == 16239832812380174);
    lemma_partition_at_153();
    assert(partition_terms(308, 20) == 16239778042043850);
    lemma_partition_at_132();
    assert(partition_terms(308, 21) == 16239784662874739);
    lemma_partition_at_121();
    assert(partition_terms(308, 22) == 16239786719022790);
    lemma_partition_at_98();
    assert(partition_terms(308, 23) == 16239786568824654);
    lemma_partition_at_86();
    assert(partition_terms(308, 24) == 16239786534561692);
    lemma_partition_at_61();
    assert(partition_terms(308, 25) == 16239786535683197);
    lemma_partition_at_48();
    assert(partition_terms(308, 26) == 16239786535830470);
    lemma_partition_at_21();
    assert(partition_terms(308, 27) == 16239786535829678);
    lemma_partition_at_7();
    assert(partition_terms(308, 28) == 16239786535829663);
}

/// The recurrence at 309.
proof fn lemma_partition_at_309()
    ensures
        partition_number(309) == 17414180133147295,
{
    lemma_pentagonal_values();
    lemma_partition_terms_stable(309, 28, 309);
    assert(partition_terms(309, 0) == 0);
    lemma_partition_at_308();
    assert(partition_terms(309, 1) == 16239786535829663);
    lemma_partition_at_307();
    assert(partition_terms(309, 2) == 31382739274686857);
    lemma_partition_at_304();
    assert(partition_terms(309, 3) == 19113521255457392);
    lemma_partition_at_302();
    assert(partition_terms(309, 4) == 8456190022908553);
    lemma_partition_at_297();
    assert(partition_terms(309, 5) == 15935755101419137);
    lemma_partition_at_294();
    assert(partition_terms(309, 6) == 21975518983514652);
    lemma_partition_at_287();
    assert(partition_terms(309, 7) == 18323088147443599);
    lemma_partition_at_283();
    assert(partition_terms(309, 8) == 15590214963896064);
    lemma_partition_at_274();
    assert(partition_terms(309, 9) == 17002964529069514);
    lemma_partition_at_269();
    assert(partition_terms(309, 10) == 17977798899014139);
    lemma_partition_at_258();
    assert(partition_terms(309, 11) == 17551865814604783);
    lemma_partition_at_252();
    assert(partition_terms(309, 12) == 17282633113352204);
    lemma_partition_at_239();
    assert(partition_terms(309, 13) == 17380496047055789);
    lemma_partition_at_232();
    assert(partition_terms(309, 14) == 17436634195726736);
    lemma_partition_at_217();
    assert(partition_terms(309, 15) == 17420032597618822);
    lemma_partition_at_209();
    assert(partition_terms(309, 16) == 17411504016316447);
    lemma_partition_at_192();
    assert(partition_terms(309, 17) == 17413491293172810);
    lemma_partition_at_183();
    assert(partition_terms(309, 18) == 17414387977990337);
    lemma_partition_at_164();
    assert(partition_terms(309, 19) == 17414231058515042);
    lemma_partition_at_154();
    assert(partition_terms(309, 20) == 17414170701841762);
    lemma_partition_at_133();
    assert(partition_terms(309, 21) == 17414178048471274);
    lemma_partition_at_122();
    assert(partition_terms(309, 22) == 17414180339792186);
    lemma_partition_at_99();
    assert(partition_terms(309, 23) == 17414180170562311);
    lemma_partition_at_87();
    assert(partition_terms(309, 24) == 17414180131674638);
    lemma_partition_at_62();
    assert(partition_terms(309, 25) == 17414180132974794);
    lemma_partition_at_49();
    assert(partition_terms(309, 26) == 17414180133148319);
    lemma_partition_at_22();
    assert(partition_terms(309, 27) == 17414180133147317);
    lemma_partition_at_8();
    assert(partition_terms(309, 28) == 17414180133147295);
}

/// The recurrence at 310.
proof fn lemma_partition_at_310()
    ensures
        partition_number(310) == 18671488299600364,
{
    lemma_pentagonal_values();
    lemma_partition_terms_stable(310, 28, 310);
    assert(partition_terms(310, 0) == 0);
    lemma_partition_at_309();
    assert(partition_terms(310, 1) == 17414180133147295);
    lemma_partition_at_308();
    assert(partition_terms(310, 2) == 33653966668976958);
    lemma_partition_at_305();
    assert(partition_terms(310, 3) == 20491748773919254);
    lemma_partition_at_303();
    assert(partition_terms(310, 4) == 9056206696097150);
    lemma_partition_at_298();
    assert(partition_terms(310, 5) == 17086455081040190);
    lemma_partition_at_295();
    assert(partition_terms(310, 6) == 23573129208119278);
    lemma_partition_at_288();
    assert(partition_terms(310, 7) == 19647207046629856);
    lemma_partition_at_284();
    assert(partition_terms(310, 8) == 16708277252700301);
    lemma_partition_at_275();
    assert(partition_terms(310, 9) == 18229257745551476);
    lemma_partition_at_270();
    assert(partition_terms(310, 10) == 19279455235482593);
    lemma_partition_at_259();
    assert(partition_terms(310, 11) == 18819909485033918);
    lemma_partition_at_253();
    assert(partition_terms(310, 12) == 18529182527117806);
    lemma_partition_at_240();
    assert(partition_terms(310, 13) == 18635064773840539);
    lemma_partition_at_233();
    assert(partition_terms(310, 14) == 18695870909278868);
    lemma_partition_at_218();
    assert(partition_terms(310, 15) == 18677842726762197);
    lemma_partition_at_210();
    assert(partition_terms(310, 16) == 18668567624186842);
    lemma_partition_at_193();
    assert(partition_terms(310, 17) == 18670736251292311);
    lemma_partition_at_184();
    assert(partition_terms(310, 18) == 18671716714172741);
    lemma_partition_at_165();
    assert(partition_terms(310, 19) == 18671544324372486);
    lemma_partition_at_155();
    assert(partition_terms(310, 20) == 18671477831190389);
    lemma_partition_at_134();
    assert(partition_terms(310, 21) == 18671485980231084);
    lemma_partition_at_123();
    assert(partition_terms(310, 22) == 18671488532569325);
    lemma_partition_at_100();
    assert(partition_terms(310, 23) == 18671488342000033);
    lemma_partition_at_88();
    assert(partition_terms(310, 24) == 18671488297891924);
    lemma_partition_at_63();
    assert(partition_terms(310, 25) == 18671488299397423);
    lemma_partition_at_50();
    assert(partition_terms(310, 26) == 18671488299601649);
    lemma_partition_at_23();
    assert(partition_terms(310, 27) == 18671488299600394);
    lemma_partition_at_9();
    assert(partition_terms(310, 28) == 18671488299600364);
}

/// The recurrence at 311.
proof fn lemma_partition_at_311()
    ensures
        partition_number(311) == 20017426762576945,
{
    lemma_pentagonal_values();
    lemma_partition_terms_stable(311, 28, 311);
    assert(partition_terms(311, 0) == 0);
    lemma_partition_at_310();
    assert(partition_terms(311, 1) == 18671488299600364);
    lemma_partition_at_309();
    assert(partition_terms(311, 2) == 36085668432747659);
    lemma_partition_at_306();
    assert(partition_terms(311, 3) == 21967005767467654);
    lemma_partition_at_304();
    assert(partition_terms(311, 4) == 9697787748238189);
    lemma_partition_at_299();
    assert(partition_terms(311, 5) == 18318284023703214);
    lemma_partition_at_296();
    assert(partition_terms(311, 6) == 25284134167899045);
    lemma_partition_at_289();
    assert(partition_terms(311, 7) == 21064745639311950);
    lemma_partition_at_285();
    assert(partition_terms(311, 8) == 17904607772162953);
    lemma_partition_at_276();
    assert(partition_terms(311, 9) == 19541901741500124);
    lemma_partition_at_271();
    assert(partition_terms(311, 10) == 20673140245438730);
    lemma_partition_at_260();
    assert(partition_terms(311, 11) == 20177398310677884);
    lemma_partition_at_254();
    assert(partition_terms(311, 12) == 19863506319371219);
    lemma_partition_at_241();
    assert(partition_terms(311, 13) == 19978047203924257);
    lemma_partition_at_234();
    assert(partition_terms(311, 14) == 20043898789894532);
    lemma_partition_at_219();
    assert(partition_terms(311, 15) == 20024324933733387);
    lemma_partition_at_211();
    assert(partition_terms(311, 16) == 20014239867847620);
    lemma_partition_at_194();
    assert(partition_terms(311, 17) == 20016605890589465);
    lemma_partition_at_185();
    assert(partition_terms(311, 18) == 20017677714363802);
    lemma_partition_at_166();
    assert(partition_terms(311, 19) == 20017488379541223);
    lemma_partition_at_156();
    assert(partition_terms(311, 20) == 20017415147297464);
    lemma_partition_at_135();
    assert(partition_terms(311, 21) == 20017424183133540);
    lemma_partition_at_124();
    assert(partition_terms(311, 22) == 20017427025074040);
    lemma_partition_at_101();
    assert(partition_terms(311, 23) == 20017426810592914);
    lemma_partition_at_89();
    assert(partition_terms(311, 24) == 20017426760596989);
    lemma_partition_at_64();
    assert(partition_terms(311, 25) == 20017426762338619);
    lemma_partition_at_51();
    assert(partition_terms(311, 26) == 20017426762578562);
    lemma_partition_at_24();
    assert(partition_terms(311, 27) == 20017426762576987);
    lemma_partition_at_10();
    assert(partition_terms(311, 28) == 20017426762576945);
}

/// The recurrence at 312.
proof fn lemma_partition_at_312()
    ensures
        partition_number(312) == 21458096037352891,
{
    lemma_pentagonal_values();
    lemma_partition_terms_stable(312, 28, 312);
    assert(partition_terms(312, 0) == 0);
    lemma_partition_at_311();
    assert(partition_terms(312, 1) == 20017426762576945);
    lemma_partition_at_310();
    assert(partition_terms(312, 2) == 38688915062177309);
    lemma_partition_at_307();
    assert(partition_terms(312, 3) == 23545962323320115);
    lemma_partition_at_305();
    assert(partition_terms(312, 4) == 10383744428262411);
    lemma_partition_at_300();
    assert(partition_terms(312, 5) == 19636827364986013);
    lemma_partition_at_297();
    assert(partition_terms(312, 6) == 27116392443496597);
    lemma_partition_at_290();
    assert(partition_terms(312, 7) == 22582139316595711);
    lemma_partition_at_286();
    assert(partition_terms(312, 8) == 19184555304608938);
    lemma_partition_at_277();
    assert(partition_terms(312, 9) == 20946833737666207);
    lemma_partition_at_272();
    assert(partition_terms(312, 10) == 22165208087510540);
    lemma_partition_at_261();
    assert(partition_terms(312, 11) == 21630493024601931);
    lemma_partition_at_255();
    assert(partition_terms(312, 12) == 21291638760353251);
    lemma_partition_at_242();
    assert(partition_terms(312, 13) == 21415527203430510);
    lemma_partition_at_235();
    assert(partition_terms(312, 14) == 21486831388945429);
    lemma_partition_at_220();
    assert(partition_terms(312, 15) == 21465583109936062);
    lemma_partition_at_212();
    assert(partition_terms(312, 16) == 21454619402730803);
    lemma_partition_at_195();
    assert(partition_terms(312, 17) == 21457200242943776);
    lemma_partition_at_186();
    assert(partition_terms(312, 18) == 21458371675636149);
    lemma_partition_at_167();
    assert(partition_terms(312, 19) == 21458163785216047);
    lemma_partition_at_157();
    assert(partition_terms(312, 20) == 21458083154251278);
    lemma_partition_at_136();
    assert(partition_terms(312, 21) == 21458093169832958);
    lemma_partition_at_125();
    assert(partition_terms(312, 22) == 21458096332960310);
    lemma_partition_at_102();
    assert(partition_terms(312, 23) == 21458096091694931);
    lemma_partition_at_90();
    assert(partition_terms(312, 24) == 21458096035060758);
    lemma_partition_at_65();
    assert(partition_terms(312, 25) == 21458096037073316);
    lemma_partition_at_52();
    assert(partition_terms(312, 26) == 21458096037354905);
    lemma_partition_at_25();
    assert(partition_terms(312, 27) == 21458096037352947);
    lemma_partition_at_11();
    assert(partition_terms(312, 28) == 21458096037352891);
}

/// The recurrence at 313.
proof fn lemma_partition_at_313()
    ensures
        partition_number(313) == 23000006655487337,
{
    lemma_pentagonal_values();
    lemma_partition_terms_stable(313, 28, 313);
    assert(partition_terms(313, 0) == 0);
    lemma_partition_at_312();
    assert(partition_terms(313, 1) == 21458096037352891);
    lemma_partition_at_311();
    assert(partition_terms(313, 2) == 41475522799929836);
    lemma_partition_at_308();
    assert(partition_terms(313, 3) == 25235736264100173);
    lemma_partition_at_306();
    assert(partition_terms(313, 4) == 11117073598820168);
    lemma_partition_at_301();
    assert(partition_terms(313, 5) == 21048045991223669);
    lemma_partition_at_298();
    assert(partition_terms(313, 6) == 29078294376166709);
    lemma_partition_at_291();
    assert(partition_terms(313, 7) == 24206256319694625);
    lemma_partition_at_287();
    assert(partition_terms(313, 8) == 20553825483623572);
    lemma_partition_at_278();
    assert(partition_terms(313, 9) == 22450389587215156);
    lemma_partition_at_273();
    assert(partition_terms(313, 10) == 23762441388031371);
    lemma_partition_at_262();
    assert(partition_terms(313, 11) == 23185768713084203);
    lemma_partition_at_256();
    assert(partition_terms(313, 12) == 22820019146213421);
    lemma_partition_at_243();
    assert(partition_terms(313, 13) == 22953997405558309);
    lemma_partition_at_236();
    assert(partition_terms(313, 14) == 23031193298221821);
    lemma_partition_at_221();
    assert(partition_terms(313, 15) == 23008131427047972);
    lemma_partition_at_213();
    assert(partition_terms(313, 16) == 22996214745811694);
    lemma_partition_at_196();
    assert(partition_terms(313, 17) == 22999029316799285);
    lemma_partition_at_187();
    assert(partition_terms(313, 18) == 23000309327841553);
    lemma_partition_at_168();
    assert(partition_terms(313, 19) == 23000081123108802);
    lemma_partition_at_158();
    assert(partition_terms(313, 20) == 22999992371330000);
    lemma_partition_at_137();
    assert(partition_terms(313, 21) == 23000003468975016);
    lemma_partition_at_126();
    assert(partition_terms(313, 22) == 23000006988197708);
    lemma_partition_at_103();
    assert(partition_terms(313, 23) == 23000006716948758);
    lemma_partition_at_91();
    assert(partition_terms(313, 24) == 23000006652836399);
    lemma_partition_at_66();
    assert(partition_terms(313, 25) == 23000006655159919);
    lemma_partition_at_53();
    assert(partition_terms(313, 26) == 23000006655489850);
    lemma_partition_at_26();
    assert(partition_terms(313, 27) == 23000006655487414);
    lemma_partition_at_12();
    assert(partition_terms(313, 28) == 23000006655487337);
}

/// The recurrence at 314.
proof fn lemma_partition_at_314()
    ensures
        partition_number(314) == 24650106150830490,
{
    lemma_pentagonal_values();
    lemma_partition_terms_stable(314, 28, 314);
    assert(partition_terms(314, 0) == 0);
    lemma_partition_at_313();
    assert(partition_terms(314, 1) == 23000006655487337);
    lemma_partition_at_312();
    assert(partition_terms(314, 2) == 44458102692840228);
    lemma_partition_at_309();
    assert(partition_terms(314, 3) == 27043922559692933);
    lemma_partition_at_307();
    assert(partition_terms(314, 4) == 11900969820835739);
    lemma_partition_at_302();
    assert(partition_terms(314, 5) == 22558301053384578);
    lemma_partition_at_299();
    assert(partition_terms(314, 6) == 31178797328849603);
    lemma_partition_at_292();
    assert(partition_terms(314, 7) == 25944426259095931);
    lemma_partition_at_288();
    assert(partition_terms(314, 8) == 22018504097606509);
    lemma_partition_at_279();
    assert(partition_terms(314, 9) == 24059329950181584);
    lemma_partition_at_274();
    assert(partition_terms(314, 10) == 25472079515355034);
    lemma_partition_at_263();
    assert(partition_terms(314, 11) == 24850242098845419);
    lemma_partition_at_257();
    assert(partition_terms(314, 12) == 24455518422190062);
    lemma_partition_at_244();
    assert(partition_terms(314, 13) == 24600386114686507);
    lemma_partition_at_237();
    assert(partition_terms(314, 14) == 24683947218612378);
    lemma_partition_at_222();
    assert(partition_terms(314, 15) == 24658921344852267);
    lemma_partition_at_214();
    assert(partition_terms(314, 16) == 24645971248926372);
    lemma_partition_at_197();
    assert(partition_terms(314, 17) == 24649040078804902);
    lemma_partition_at_188();
    assert(partition_terms(314, 18) == 24650438420550473);
    lemma_partition_at_169();
    assert(partition_terms(314, 19) == 24650187981625358);
    lemma_partition_at_159();
    assert(partition_terms(314, 20) == 24650090318896803);
    lemma_partition_at_138();
    assert(partition_terms(314, 21) == 24650102611238634);
    lemma_partition_at_127();
    assert(partition_terms(314, 22) == 24650106525102929);
    lemma_partition_at_104();
    assert(partition_terms(314, 23) == 24650106220301564);
    lemma_partition_at_92();
    assert(partition_terms(314, 24) == 24650106147767757);
    lemma_partition_at_67();
    assert(partition_terms(314, 25) == 24650106150447446);
    lemma_partition_at_54();
    assert(partition_terms(314, 26) == 24650106150833601);
    lemma_partition_at_27();
    assert(partition_terms(314, 27) == 24650106150830591);
    lemma_partition_at_13();
    assert(partition_terms(314, 28) == 24650106150830490);
}

/// The recurrence at 315.
proof fn lemma_partition_at_315()
    ensures
        partition_number(315) == 26415807633566326,
{
    lemma_pentagonal_values();
    lemma_partition_terms_stable(315, 28, 315);
    assert(partition_terms(315, 0) == 0);
    lemma_partition_at_314();
    assert(partition_terms(315, 1) == 24650106150830490);
    lemma_partition_at_313();
    assert(partition_terms(315, 2) == 47650112806317827);
    lemma_partition_at_310();
    assert(partition_terms(315, 3) == 28978624506717463);
    lemma_partition_at_308();
    assert(partition_terms(315, 4) == 12738837970887800);
    lemma_partition_at_303();
    assert(partition_terms(315, 5) == 24174380048709904);
    lemma_partition_at_300();
    assert(partition_terms(315, 6) == 33427462985433506);
    lemma_partition_at_293();
    assert(partition_terms(315, 7) == 27804470293482901);
    lemma_partition_at_289();
    assert(partition_terms(315, 8) == 23585081764895806);
    lemma_partition_at_280();
    assert(partition_terms(315, 9) == 25780868076578322);
    lemma_partition_at_275();
    assert(partition_terms(315, 10) == 27301848569429497);
    lemma_partition_at_264();
    assert(partition_terms(315, 11) == 26631400446369327);
    lemma_partition_at_258();
    assert(partition_terms(315, 12) == 26205467361959971);
    lemma_partition_at_245();
    assert(partition_terms(315, 13) == 26362085774487917);
    lemma_partition_at_238();
    assert(partition_terms(315, 14) == 26452522614156734);
    lemma_partition_at_223();
    assert(partition_terms(315, 15) == 26425370205231119);
    lemma_partition_at_215();
    assert(partition_terms(315, 16) == 26411299659531832);
    lemma_partition_at_198();
    assert(partition_terms(315, 17) == 26414645025515530);
    lemma_partition_at_189();
    assert(partition_terms(315, 18) == 26416172299115155);
    lemma_partition_at_170();
    assert(partition_terms(315, 19) == 26415897530498025);
    lemma_partition_at_160();
    assert(partition_terms(315, 20) == 26415790092338559);
    lemma_partition_at_139();
    assert(partition_terms(315, 21) == 26415803703288454);
    lemma_partition_at_128();
    assert(partition_terms(315, 22) == 26415808054367054);
    lemma_partition_at_105();
    assert(partition_terms(315, 23) == 26415807712041345);
    lemma_partition_at_93();
    assert(partition_terms(315, 24) == 26415807630031168);
    lemma_partition_at_68();
    assert(partition_terms(315, 25) == 26415807633118903);
    lemma_partition_at_55();
    assert(partition_terms(315, 26) == 26415807633570179);
    lemma_partition_at_28();
    assert(partition_terms(315, 27) == 26415807633566461);
    lemma_partition_at_14();
    assert(partition_terms(315, 28) == 26415807633566326);
}

/// The recurrence at 316.
proof fn lemma_partition_at_316()
    ensures
        partition_number(316) == 28305020340996003,
{
    lemma_pentagonal_values();
    lemma_partition_terms_stable(316, 28, 316);
    assert(partition_terms(316, 0) == 0);
    lemma_partition_at_315();
    assert(partition_terms(316, 1) == 26415807633566326);
    lemma_partition_at_314();
    assert(partition_terms(316, 2) == 51065913784396816);
    lemma_partition_at_311();
    assert(partition_terms(316, 3) == 31048487021819871);
    lemma_partition_at_309();
    assert(partition_terms(316, 4) == 13634306888672576);
    lemma_partition_at_304();
    assert(partition_terms(316, 5) == 25903524907902041);
    lemma_partition_at_301();
    assert(partition_terms(316, 6) == 35834497300305542);
    lemma_partition_at_294();
    assert(partition_terms(316, 7) == 29794733418210027);
    lemma_partition_at_290();
    assert(partition_terms(316, 8) == 25260480291309141);
    lemma_partition_at_281();
    assert(partition_terms(316, 9) == 27622699436646852);
    lemma_partition_at_276();
    assert(partition_terms(316, 10) == 29259993405984023);
    lemma_partition_at_265();
    assert(partition_terms(316, 11) == 28537232452293651);
    lemma_partition_at_259();
    assert(partition_terms(316, 12) == 28077686701844976);
    lemma_partition_at_246();
    assert(partition_terms(316, 13) == 28246983424236530);
    lemma_partition_at_239();
    assert(partition_terms(316, 14) == 28344846357940115);
    lemma_partition_at_224();
    assert(partition_terms(316, 15) == 28315391807998365);
    lemma_partition_at_216();
    assert(partition_terms(316, 16) == 28300106656749884);
    lemma_partition_at_199();
    assert(partition_terms(316, 17) == 28303752729182009);
    lemma_partition_at_190();
    assert(partition_terms(316, 18) == 28305420456586102);
    lemma_partition_at_171();
    assert(partition_terms(316, 19) == 28305119071784054);
    lemma_partition_at_161();
    assert(partition_terms(316, 20) == 28305000912715627);
    lemma_partition_at_140();
    assert(partition_terms(316, 21) == 28305015978593762);
    lemma_partition_at_129();
    assert(partition_terms(316, 22) == 28305020813865632);
    lemma_partition_at_106();
    assert(partition_terms(316, 23) == 28305020429589296);
    lemma_partition_at_94();
    assert(partition_terms(316, 24) == 28305020336919576);
    lemma_partition_at_69();
    assert(partition_terms(316, 25) == 28305020340473921);
    lemma_partition_at_56();
    assert(partition_terms(316, 26) == 28305020341000744);
    lemma_partition_at_29();
    assert(partition_terms(316, 27) == 28305020340996179);
    lemma_partition_at_15();
    assert(partition_terms(316, 28) == 28305020340996003);
}

/// The recurrence at 317.
proof fn lemma_partition_at_317()
    ensures
        partition_number(317) == 30326181989842964,
{
    lemma_pentagonal_values();
    lemma_partition_terms_stable(317, 28, 317);
    assert(partition_terms(317, 0) == 0);
    lemma_partition_at_316();
    assert(partition_terms(317, 1) == 28305020340996003);
    lemma_partition_at_315();
    assert(partition_terms(317, 2) == 54720827974562329);
    lemma_partition_at_312();
    assert(partition_terms(317, 3) == 33262731937209438);
    lemma_partition_at_310();
    assert(partition_terms(317, 4) == 14591243637609074);
    lemma_partition_at_305();
    assert(partition_terms(317, 5) == 27753461532666778);
    lemma_partition_at_302();
    assert(partition_terms(317, 6) == 38410792765215617);
    lemma_partition_at_295();
    assert(partition_terms(317, 7) == 31924118638136529);
    lemma_partition_at_291();
    assert(partition_terms(317, 8) == 27052080581664445);
    lemma_partition_at_282();
    assert(partition_terms(317, 9) == 29593033171710143);
    lemma_partition_at_277();
    assert(partition_terms(317, 10) == 31355311604767412);
    lemma_partition_at_266();
    assert(partition_terms(317, 11) == 30576260975205245);
    lemma_partition_at_260();
    assert(partition_terms(317, 12) == 30080519040444399);
    lemma_partition_at_247();
    assert(partition_terms(317, 13) == 30263492930298425);
    lemma_partition_at_240();
    assert(partition_terms(317, 14) == 30369375177021158);
    lemma_partition_at_225();
    assert(partition_terms(317, 15) == 30337428786325001);
    lemma_partition_at_217();
    assert(partition_terms(317, 16) == 30320827188217087);
    lemma_partition_at_200();
    assert(partition_terms(317, 17) == 30324800187246475);
    lemma_partition_at_191();
    assert(partition_terms(317, 18) == 30326620888347127);
    lemma_partition_at_172();
    assert(partition_terms(317, 19) == 30326290392847514);
    lemma_partition_at_162();
    assert(partition_terms(317, 20) == 30326160478942877);
    lemma_partition_at_141();
    assert(partition_terms(317, 21) == 30326177149632085);
    lemma_partition_at_130();
    assert(partition_terms(317, 22) == 30326182520947485);
    lemma_partition_at_107();
    assert(partition_terms(317, 23) == 30326182089798096);
    lemma_partition_at_95();
    assert(partition_terms(317, 24) == 30326181985146677);
    lemma_partition_at_70();
    assert(partition_terms(317, 25) == 30326181989234645);
    lemma_partition_at_57();
    assert(partition_terms(317, 26) == 30326181989848799);
    lemma_partition_at_30();
    assert(partition_terms(317, 27) == 30326181989843195);
    lemma_partition_at_16();
    assert(partition_terms(317, 28) == 30326181989842964);
}

/// The recurrence at 318.
proof fn lemma_partition_at_318()
    ensures
        partition_number(318) == 32488293351466654,
{
    lemma_pentagonal_values();
    lemma_partition_terms_stable(318, 28, 318);
    assert(partition_terms(318, 0) == 0);
    lemma_partition_at_317();
    assert(partition_terms(318, 1) == 30326181989842964);
    lemma_partition_at_316();
    assert(partition_terms(318, 2) == 58631202330838967);
    lemma_partition_at_313();
    assert(partition_terms(318, 3) == 35631195675351630);
    lemma_partition_at_311();
    assert(partition_terms(318, 4) == 15613768912774685);
    lemma_partition_at_306();
    assert(partition_terms(318, 5) == 29732431578054690);
    lemma_partition_at_303();
    assert(partition_terms(318, 6) == 41167973655876794);
    lemma_partition_at_296();
    assert(partition_terms(318, 7) == 34202123511680963);
    lemma_partition_at_292();
    assert(partition_terms(318, 8) == 28967752441927291);
    lemma_partition_at_283();
    assert(partition_terms(318, 9) == 31700625625474826);
    lemma_partition_at_278();
    assert(partition_terms(318, 10) == 33597189729066410);
    lemma_partition_at_267();
    assert(partition_terms(318, 11) == 32757577998699596);
    lemma_partition_at_261();
    assert(partition_terms(318, 12) == 32222862935790987);
    lemma_partition_at_248();
    assert(partition_terms(318, 13) == 32420589452472659);
    lemma_partition_at_241();
    assert(partition_terms(318, 14) == 32535130337025697);
    lemma_partition_at_226();
    assert(partition_terms(318, 15) == 32500487210703178);
    lemma_partition_at_218();
    assert(partition_terms(318, 16) == 32482459028186507);
    lemma_partition_at_201();
    assert(partition_terms(318, 17) == 32486787391845154);
    lemma_partition_at_192();
    assert(partition_terms(318, 18) == 32488774668701517);
    lemma_partition_at_173();
    assert(partition_terms(318, 19) == 32488412341841622);
    lemma_partition_at_163();
    assert(partition_terms(318, 20) == 32488269542845692);
    lemma_partition_at_142();
    assert(partition_terms(318, 21) == 32488287983139012);
    lemma_partition_at_131();
    assert(partition_terms(318, 22) == 32488293947678516);
    lemma_partition_at_108();
    assert(partition_terms(318, 23) == 32488293464175672);
    lemma_partition_at_96();
    assert(partition_terms(318, 24) == 32488293346061368);
    lemma_partition_at_71();
    assert(partition_terms(318, 25) == 32488293350758573);
    lemma_partition_at_58();
    assert(partition_terms(318, 26) == 32488293351473793);
    lemma_partition_at_31();
    assert(partition_terms(318, 27) == 32488293351466951);
    lemma_partition_at_17();
    assert(partition_terms(318, 28) == 32488293351466654);
}

/// The recurrence at 319.
proof fn lemma_partition_at_319()
    ensures
        partition_number(319) == 34800954869440830,
{
    lemma_pentagonal_values();
    lemma_partition_terms_stable(319, 28, 319);
    assert(partition_terms(319, 0) == 0);
    lemma_partition_at_318();
    assert(partition_terms(319, 1) == 32488293351466654);
    lemma_partition_at_317();
    assert(partition_terms(319, 2) == 62814475341309618);
    lemma_partition_at_314();
    assert(partition_terms(319, 3) == 38164369190479128);
    lemma_partition_at_312();
    assert(partition_terms(319, 4) == 16706273153126237);
    lemma_partition_at_307();
    assert(partition_terms(319, 5) == 31849225891983431);
    lemma_partition_at_304();
    assert(partition_terms(319, 6) == 44118443911212896);
    lemma_partition_at_297();
    assert(partition_terms(319, 7) == 36638878832702312);
    lemma_partition_at_293();
    assert(partition_terms(319, 8) == 31015886140751707);
    lemma_partition_at_284();
    assert(partition_terms(319, 9) == 33954815934681262);
    lemma_partition_at_279();
    assert(partition_terms(319, 10) == 35995641787256337);
    lemma_partition_at_268();
    assert(partition_terms(319, 11) == 35090881678939977);
    lemma_partition_at_262();
    assert(partition_terms(319, 12) == 34514209003992809);
    lemma_partition_at_249();
    assert(partition_terms(319, 13) == 34727845923813434);
    lemma_partition_at_242();
    assert(partition_terms(319, 14) == 34851734366890693);
    lemma_partition_at_227();
    assert(partition_terms(319, 15) == 34814173233308123);
    lemma_partition_at_219();
    assert(partition_terms(319, 16) == 34794599377146978);
    lemma_partition_at_202();
    assert(partition_terms(319, 17) == 34799313944033061);
    lemma_partition_at_193();
    assert(partition_terms(319, 18) == 34801482571138530);
    lemma_partition_at_174();
    assert(partition_terms(319, 19) == 34801085446063780);
    lemma_partition_at_164();
    assert(partition_terms(319, 20) == 34800928526588485);
    lemma_partition_at_143();
    assert(partition_terms(319, 21) == 34800948917571242);
    lemma_partition_at_132();
    assert(partition_terms(319, 22) == 34800955538402131);
    lemma_partition_at_109();
    assert(partition_terms(319, 23) == 34800954996455891);
    lemma_partition_at_97();
    assert(partition_terms(319, 24) == 34800954863224961);
    lemma_partition_at_72();
    assert(partition_terms(319, 25) == 34800954868617744);
    lemma_partition_at_59();
    assert(partition_terms(319, 26) == 34800954869449564);
    lemma_partition_at_32();
    assert(partition_terms(319, 27) == 34800954869441215);
    lemma_partition_at_18();
    assert(partition_terms(319, 28) == 34800954869440830);
}

/// The recurrence at 320.
proof fn lemma_partition_at_320()
    ensures
        partition_number(320) == 37274405776748077,
{
    lemma_pentagonal_values();
    lemma_partition_terms_stable(320, 28, 320);
    assert(partition_terms(320, 0) == 0);
    lemma_partition_at_319();
    assert(partition_terms(320, 1) == 34800954869440830);
    lemma_partition_at_318();
    assert(partition_terms(320, 2) == 67289248220907484);
    lemma_partition_at_315();
    assert(partition_terms(320, 3) == 40873440587341158);
    lemma_partition_at_313();
    assert(partition_terms(320, 4) == 17873433931853821);
    lemma_partition_at_308();
    assert(partition_terms(320, 5) == 34113220467683484);
    lemma_partition_at_305();
    assert(partition_terms(320, 6) == 47275438362741188);
    lemma_partition_at_298();
    assert(partition_terms(320, 7) == 39245189977798148);
    lemma_partition_at_294();
    assert(partition_terms(320, 8) == 33205426095702633);
    lemma_partition_at_285();
    assert(partition_terms(320, 9) == 36365563962851630);
    lemma_partition_at_280();
    assert(partition_terms(320, 10) == 38561350274534146);
    lemma_partition_at_269();
    assert(partition_terms(320, 11) == 37586515904589521);
    lemma_partition_at_263();
    assert(partition_terms(320, 12) == 36964678488079906);
    lemma_partition_at_250();
    assert(partition_terms(320, 13) == 37195472042444587);
    lemma_partition_at_243();
    assert(partition_terms(320, 14) == 37329450301789475);
    lemma_partition_at_228();
    assert(partition_terms(320, 15) == 37288732238162113);
    lemma_partition_at_220();
    assert(partition_terms(320, 16) == 37267483959152746);
    lemma_partition_at_203();
    assert(partition_terms(320, 17) == 37272618164440719);
    lemma_partition_at_194();
    assert(partition_terms(320, 18) == 37274984187182564);
    lemma_partition_at_175();
    assert(partition_terms(320, 19) == 37274549029484734);
    lemma_partition_at_165();
    assert(partition_terms(320, 20) == 37274376639684479);
    lemma_partition_at_144();
    assert(partition_terms(320, 21) == 37274399180338924);
    lemma_partition_at_133();
    assert(partition_terms(320, 22) == 37274406526968436);
    lemma_partition_at_110();
    assert(partition_terms(320, 23) == 37274405919804690);
    lemma_partition_at_98();
    assert(partition_terms(320, 24) == 37274405769606554);
    lemma_partition_at_73();
    assert(partition_terms(320, 25) == 37274405775792243);
    lemma_partition_at_60();
    assert(partition_terms(320, 26) == 37274405776758710);
    lemma_partition_at_33();
    assert(partition_terms(320, 27) == 37274405776748567);
    lemma_partition_at_19();
    assert(partition_terms(320, 28) == 37274405776748077);
}

/// The recurrence at 321.
proof fn lemma_partition_at_321()
    ensures
        partition_number(321) == 39919565526999991,
{
    lemma_pentagonal_values();
    lemma_partition_terms_stable(321, 28, 321);
    assert(partition_terms(321, 0) == 0);
    lemma_partition_at_320();
    assert(partition_terms(321, 1) == 37274405776748077);
    lemma_partition_at_319();
    assert(partition_terms(321, 2) == 72075360646188907);
    lemma_partition_at_316();
    assert(partition_terms(321, 3) == 43770340305192904);
    lemma_partition_at_314();
    assert(partition_terms(321, 4) == 19120234154362414);
    lemma_partition_at_309();
    assert(partition_terms(321, 5) == 36534414287509709);
    lemma_partition_at_306();
    assert(partition_terms(321, 6) == 50653076952789714);
    lemma_partition_at_299();
    assert(partition_terms(321, 7) == 42032580677324689);
    lemma_partition_at_295();
    assert(partition_terms(321, 8) == 35545906550245601);
    lemma_partition_at_286();
    assert(partition_terms(321, 9) == 38943490562232374);
    lemma_partition_at_281();
    assert(partition_terms(321, 10) == 41305709707570085);
    lemma_partition_at_270();
    assert(partition_terms(321, 11) == 40255512217638968);
    lemma_partition_at_264();
    assert(partition_terms(321, 12) == 39585064094578798);
    lemma_partition_at_251();
    assert(partition_terms(321, 13) == 39834355545747357);
    lemma_partition_at_244();
    assert(partition_terms(321, 14) == 39979223238243802);
    lemma_partition_at_229();
    assert(partition_terms(321, 15) == 39935090303359547);
    lemma_partition_at_221();
    assert(partition_terms(321, 16) == 39912028432185698);
    lemma_partition_at_204();
    assert(partition_terms(321, 17) == 39917618520503193);
    lemma_partition_at_195();
    assert(partition_terms(321, 18) == 39920199360716166);
    lemma_partition_at_176();
    assert(partition_terms(321, 19) == 39919722644858876);
    lemma_partition_at_166();
    assert(partition_terms(321, 20) == 39919533310036297);
    lemma_partition_at_145();
    assert(partition_terms(321, 21) == 39919558218894306);
    lemma_partition_at_134();
    assert(partition_terms(321, 22) == 39919566367935001);
    lemma_partition_at_111();
    assert(partition_terms(321, 23) == 39919565688031798);
    lemma_partition_at_99();
    assert(partition_terms(321, 24) == 39919565518801923);
    lemma_partition_at_74();
    assert(partition_terms(321, 25) == 39919565525891423);
    lemma_partition_at_61();
    assert(partition_terms(321, 26) == 39919565527012928);
    lemma_partition_at_34();
    assert(partition_terms(321, 27) == 39919565527000618);
    lemma_partition_at_20();
    assert(partition_terms(321, 28) == 39919565526999991);
}

/// The recurrence at 322.
proof fn lemma_partition_at_322()
    ensures
        partition_number(322) == 42748078035954696,
{
    lemma_pentagonal_values();
    lemma_partition_terms_stable(322, 28, 322);
    assert(partition_terms(322, 0) == 0);
    lemma_partition_at_321();
    assert(partition_terms(322, 1) == 39919565526999991);
    lemma_partition_at_320();
    assert(partition_terms(322, 2) == 77193971303748068);
    lemma_partition_at_317();
    assert(partition_terms(322, 3) == 46867789313905104);
    lemma_partition_at_315();
    assert(partition_terms(322, 4) == 20451981680338778);
    lemma_partition_at_310();
    assert(partition_terms(322, 5) == 39123469979939142);
    lemma_partition_at_307();
    assert(partition_terms(322, 6) == 54266422718796336);
    lemma_partition_at_300();
    assert(partition_terms(322, 7) == 45013339782072734);
    lemma_partition_at_296();
    assert(partition_terms(322, 8) == 38047489637876903);
    lemma_partition_at_287();
    assert(partition_terms(322, 9) == 41699920473947956);
    lemma_partition_at_282();
    assert(partition_terms(322, 10) == 44240873063993654);
    lemma_partition_at_271();
    assert(partition_terms(322, 11) == 43109634560055048);
    lemma_partition_at_265();
    assert(partition_terms(322, 12) == 42386873606364676);
    lemma_partition_at_252();
    assert(partition_terms(322, 13) == 42656106307617255);
    lemma_partition_at_245();
    assert(partition_terms(322, 14) == 42812724720145201);
    lemma_partition_at_230();
    assert(partition_terms(322, 15) == 42764898480399281);
    lemma_partition_at_222();
    assert(partition_terms(322, 16) == 42739872606639170);
    lemma_partition_at_205();
    assert(partition_terms(322, 17) == 42745957860498430);
    lemma_partition_at_196();
    assert(partition_terms(322, 18) == 42748772431486021);
    lemma_partition_at_177();
    assert(partition_terms(322, 19) == 42748250315654826);
    lemma_partition_at_167();
    assert(partition_terms(322, 20) == 42748042425234724);
    lemma_partition_at_146();
    assert(partition_terms(322, 21) == 42748069942287323);
    lemma_partition_at_135();
    assert(partition_terms(322, 22) == 42748078978123399);
    lemma_partition_at_112();
    assert(partition_terms(322, 23) == 42748078217121243);
    lemma_partition_at_100();
    assert(partition_terms(322, 24) == 42748078026551951);
    lemma_partition_at_75();
    assert(partition_terms(322, 25) == 42748078034670215);
    lemma_partition_at_62();
    assert(partition_terms(322, 26) == 42748078035970371);
    lemma_partition_at_35();
    assert(partition_terms(322, 27) == 42748078035955488);
    lemma_partition_at_21();
    assert(partition_terms(322, 28) == 42748078035954696);
}

/// The recurrence at 323.
proof fn lemma_partition_at_323()
    ensures
        partition_number(323) == 45772358543578028,
{
    lemma_pentagonal_values();
    lemma_partition_terms_stable(323, 28, 323);
    assert(partition_terms(323, 0) == 0);
    lemma_partition_at_322();
    assert(partition_terms(323, 1) == 42748078035954696);
    lemma_partition_at_321();
    assert(partition_terms(323, 2) == 82667643562954687);
    lemma_partition_at_318();
    assert(partition_terms(323, 3) == 50179350211488033);
    lemma_partition_at_316();
    assert(partition_terms(323, 4) == 21874329870492030);
    lemma_partition_at_311();
    assert(partition_terms(323, 5) == 41891756633068975);
    lemma_partition_at_308();
    assert(partition_terms(323, 6) == 58131543168898638);
    lemma_partition_at_301();
    assert(partition_terms(323, 7) == 48200570776495137);
    lemma_partition_at_297();
    assert(partition_terms(323, 8) == 40721005697984553);
    lemma_partition_at_288();
    assert(partition_terms(323, 9) == 44646927859473975);
    lemma_partition_at_283();
    assert(partition_terms(323, 10) == 47379801043021510);
    lemma_partition_at_272();
    assert(partition_terms(323, 11) == 46161426693177177);
    lemma_partition_at_266();
    assert(partition_terms(323, 12) == 45382376063615010);
    lemma_partition_at_253();
    assert(partition_terms(323, 13) == 45673103021531122);
    lemma_partition_at_246();
    assert(partition_terms(323, 14) == 45842399743922676);
    lemma_partition_at_231();
    assert(partition_terms(323, 15) == 45790579692083964);
    lemma_partition_at_223();
    assert(partition_terms(323, 16) == 45763427283158349);
    lemma_partition_at_206();
    assert(partition_terms(323, 17) == 45770050270866389);
    lemma_partition_at_197();
    assert(partition_terms(323, 18) == 45773119100744919);
    lemma_partition_at_178();
    assert(partition_terms(323, 19) == 45772547399139264);
    lemma_partition_at_168();
    assert(partition_terms(323, 20) == 45772319194406513);
    lemma_partition_at_147();
    assert(partition_terms(323, 21) == 45772349583078491);
    lemma_partition_at_136();
    assert(partition_terms(323, 22) == 45772359598660171);
    lemma_partition_at_113();
    assert(partition_terms(323, 23) == 45772358747283543);
    lemma_partition_at_101();
    assert(partition_terms(323, 24) == 45772358532802417);
    lemma_partition_at_76();
    assert(partition_terms(323, 25) == 45772358542091508);
    lemma_partition_at_63();
    assert(partition_terms(323, 26) == 45772358543597007);
    lemma_partition_at_36();
    assert(partition_terms(323, 27) == 45772358543579030);
    lemma_partition_at_22();
    assert(partition_terms(323, 28) == 45772358543578028);
}

/// The recurrence at 324.
proof fn lemma_partition_at_324()
    ensures
        partition_number(324) == 49005643635237875,
{
    lemma_pentagonal_values();
    lemma_partition_terms_stable(324, 28, 324);
    assert(partition_terms(324, 0) == 0);
    lemma_partition_at_323();
    assert(partition_terms(324, 1) == 45772358543578028);
    lemma_partition_at_322();
    assert(partition_terms(324, 2) == 88520436579532724);
    lemma_partition_at_319();
    assert(partition_terms(324, 3) == 53719481710091894);
    lemma_partition_at_317();
    assert(partition_terms(324, 4) == 23393299720248930);
    lemma_partition_at_312();
    assert(partition_terms(324, 5) == 44851395757601821);
    lemma_partition_at_309();
    assert(partition_terms(324, 6) == 62265575890749116);
    lemma_partition_at_302();
    assert(partition_terms(324, 7) == 51608244658200277);
    lemma_partition_at_298();
    assert(partition_terms(324, 8) == 43577996273257237);
    lemma_partition_at_289();
    assert(partition_terms(324, 9) == 47797384801844332);
    lemma_partition_at_284();
    assert(partition_terms(324, 10) == 50736314595773887);
    lemma_partition_at_273();
    assert(partition_terms(324, 11) == 49424262794957672);
    lemma_partition_at_267();
    assert(partition_terms(324, 12) == 48584651064590858);
    lemma_partition_at_254();
    assert(partition_terms(324, 13) == 48898543055897523);
    lemma_partition_at_247();
    assert(partition_terms(324, 14) == 49081516945751549);
    lemma_partition_at_232();
    assert(partition_terms(324, 15) == 49025378797080602);
    lemma_partition_at_224();
    assert(partition_terms(324, 16) == 48995924247138852);
    lemma_partition_at_207();
    assert(partition_terms(324, 17) == 49003131088845342);
    lemma_partition_at_198();
    assert(partition_terms(324, 18) == 49006476454829040);
    lemma_partition_at_179();
    assert(partition_terms(324, 19) == 49005850608075920);
    lemma_partition_at_169();
    assert(partition_terms(324, 20) == 49005600169150805);
    lemma_partition_at_148();
    assert(partition_terms(324, 21) == 49005633718570302);
    lemma_partition_at_137();
    assert(partition_terms(324, 22) == 49005644816215318);
    lemma_partition_at_114();
    assert(partition_terms(324, 23) == 49005643864164653);
    lemma_partition_at_102();
    assert(partition_terms(324, 24) == 49005643622899274);
    lemma_partition_at_77();
    assert(partition_terms(324, 25) == 49005643633519137);
    lemma_partition_at_64();
    assert(partition_terms(324, 26) == 49005643635260767);
    lemma_partition_at_37();
    assert(partition_terms(324, 27) == 49005643635239130);
    lemma_partition_at_23();
    assert(partition_terms(324, 28) == 49005643635237875);
}

/// The recurrence at 325.
proof fn lemma_partition_at_325()
    ensures
        partition_number(325) == 52462044228828641,
{
    lemma_pentagonal_values();
    lemma_partition_terms_stable(325, 28, 325);
    assert(partition_terms(325, 0) == 0);
    lemma_partition_at_324();
    assert(partition_terms(325, 1) == 49005643635237875);
    lemma_partition_at_323();
    assert(partition_terms(325, 2) == 94778002178815903);
    lemma_partition_at_320();
    assert(partition_terms(325, 3) == 57503596402067826);
    lemma_partition_at_318();
    assert(partition_terms(325, 4) == 25015303050601172);
    lemma_partition_at_313();
    assert(partition_terms(325, 5) == 48015309706088509);
    lemma_partition_at_310();
    assert(partition_terms(325, 6) == 66686798005688873);
    lemma_partition_at_303();
    assert(partition_terms(325, 7) == 55251255927866769);
    lemma_partition_at_299();
    assert(partition_terms(325, 8) == 46630759652401744);
    lemma_partition_at_290();
    assert(partition_terms(325, 9) == 51165012779302630);
    lemma_partition_at_285();
    assert(partition_terms(325, 10) == 54325150646451627);
    lemma_partition_at_274();
    assert(partition_terms(325, 11) == 52912401081278177);
    lemma_partition_at_268();
    assert(partition_terms(325, 12) == 52007640972961817);
    lemma_partition_at_255();
    assert(partition_terms(325, 13) == 52346495237210497);
    lemma_partition_at_248();
    assert(partition_terms(325, 14) == 52544221753892169);
    lemma_partition_at_233();
    assert(partition_terms(325, 15) == 52483415618453840);
    lemma_partition_at_225();
    assert(partition_terms(325, 16) == 52451469227757683);
    lemma_partition_at_208();
    assert(partition_terms(325, 17) == 52459309883983820);
    lemma_partition_at_199();
    assert(partition_terms(325, 18) == 52462955956415945);
    lemma_partition_at_180();
    assert(partition_terms(325, 19) == 52462270999025009);
    lemma_partition_at_170();
    assert(partition_terms(325, 20) == 52461996230407879);
    lemma_partition_at_149();
    assert(partition_terms(325, 21) == 52462033257763079);
    lemma_partition_at_138();
    assert(partition_terms(325, 22) == 52462045550104910);
    lemma_partition_at_115();
    assert(partition_terms(325, 23) == 52462044485960459);
    lemma_partition_at_103();
    assert(partition_terms(325, 24) == 52462044214711509);
    lemma_partition_at_78();
    assert(partition_terms(325, 25) == 52462044226843673);
    lemma_partition_at_65();
    assert(partition_terms(325, 26) == 52462044228856231);
    lemma_partition_at_38();
    assert(partition_terms(325, 27) == 52462044228830216);
    lemma_partition_at_24();
    assert(partition_terms(325, 28) == 52462044228828641);
}

/// The recurrence at 326.
proof fn lemma_partition_at_326()
    ensures
        partition_number(326) == 56156602112874289,
{
    lemma_pentagonal_values();
    lemma_partition_terms_stable(326, 28, 326);
    assert(partition_terms(326, 0) == 0);
    lemma_partition_at_325();
    assert(partition_terms(326, 1) == 52462044228828641);
    lemma_partition_at_324();
    assert(partition_terms(326, 2) == 101467687864066516);
    lemma_partition_at_321();
    assert(partition_terms(326, 3) == 61548122337066525);
    lemma_partition_at_319();
    assert(partition_terms(326, 4) == 26747167467625695);
    lemma_partition_at_314();
    assert(partition_terms(326, 5) == 51397273618456185);
    lemma_partition_at_311();
    assert(partition_terms(326, 6) == 71414700381033130);
    lemma_partition_at_304();
    assert(partition_terms(326, 7) == 59145482361803665);
    lemma_partition_at_300();
    assert(partition_terms(326, 8) == 49892399425080063);
    lemma_partition_at_291();
    assert(partition_terms(326, 9) == 54764437481552147);
    lemma_partition_at_286();
    assert(partition_terms(326, 10) == 58162021493538920);
    lemma_partition_at_275();
    assert(partition_terms(326, 11) == 56641041000687745);
    lemma_partition_at_269();
    assert(partition_terms(326, 12) == 55666206630743120);
    lemma_partition_at_256();
    assert(partition_terms(326, 13) == 56031956197613902);
    lemma_partition_at_249();
    assert(partition_terms(326, 14) == 56245593117434527);
    lemma_partition_at_234();
    assert(partition_terms(326, 15) == 56179741531464252);
    lemma_partition_at_226();
    assert(partition_terms(326, 16) == 56145098405141733);
    lemma_partition_at_209();
    assert(partition_terms(326, 17) == 56153626986444108);
    lemma_partition_at_200();
    assert(partition_terms(326, 18) == 56157599985473496);
    lemma_partition_at_181();
    assert(partition_terms(326, 19) == 56156850511061715);
    lemma_partition_at_171();
    assert(partition_terms(326, 20) == 56156549126259667);
    lemma_partition_at_150();
    assert(partition_terms(326, 21) == 56156589979494980);
    lemma_partition_at_139();
    assert(partition_terms(326, 22) == 56156603590444875);
    lemma_partition_at_116();
    assert(partition_terms(326, 23) == 56156602401536627);
    lemma_partition_at_104();
    assert(partition_terms(326, 24) == 56156602096735262);
    lemma_partition_at_79();
    assert(partition_terms(326, 25) == 56156602110583912);
    lemma_partition_at_66();
    assert(partition_terms(326, 26) == 56156602112907432);
    lemma_partition_at_39();
    assert(partition_terms(326, 27) == 56156602112876247);
    lemma_partition_at_25();
    assert(partition_terms(326, 28) == 56156602112874289);
}

/// The recurrence at 327.
proof fn lemma_partition_at_327()
    ensures
        partition_number(327) == 60105349839666544,
{
    lemma_pentagonal_values();
    lemma_partition_terms_stable(327, 28, 327);
    assert(partition_terms(327, 0) == 0);
    lemma_partition_at_326();
    assert(partition_terms(327, 1) == 56156602112874289);
    lemma_partition_at_325();
    assert(partition_terms(327, 2) == 108618646341702930);
    lemma_partition_at_322();
    assert(partition_terms(327, 3) == 65870568305748234);
    lemma_partition_at_320();
    assert(partition_terms(327, 4) == 28596162529000157);
    lemma_partition_at_315();
    assert(partition_terms(327, 5) == 55011970162566483);
    lemma_partition_at_312();
    assert(partition_terms(327, 6) == 76470066199919374);
    lemma_partition_at_305();
    assert(partition_terms(327, 7) == 63307848304861670);
    lemma_partition_at_301();
    assert(partition_terms(327, 8) == 53376875912458169);
    lemma_partition_at_292();
    assert(partition_terms(327, 9) == 58611246982211841);
    lemma_partition_at_287();
    assert(partition_terms(327, 10) == 62263677818282894);
    lemma_partition_at_276();
    assert(partition_terms(327, 11) == 60626383848945723);
    lemma_partition_at_270();
    assert(partition_terms(327, 12) == 59576186359014606);
    lemma_partition_at_257();
    assert(partition_terms(327, 13) == 59970910035669963);
    lemma_partition_at_250();
    assert(partition_terms(327, 14) == 60201703590034644);
    lemma_partition_at_235();
    assert(partition_terms(327, 15) == 60130399404519725);
    lemma_partition_at_227();
    assert(partition_terms(327, 16) == 60092838270937155);
    lemma_partition_at_210();
    assert(partition_terms(327, 17) == 60102113373512510);
    lemma_partition_at_201();
    assert(partition_terms(327, 18) == 60106441737171157);
    lemma_partition_at_182();
    assert(partition_terms(327, 19) == 60105621860262834);
    lemma_partition_at_172();
    assert(partition_terms(327, 20) == 60105291364763221);
    lemma_partition_at_151();
    assert(partition_terms(327, 21) == 60105336425387803);
    lemma_partition_at_140();
    assert(partition_terms(327, 22) == 60105351491265938);
    lemma_partition_at_117();
    assert(partition_terms(327, 23) == 60105350163555862);
    lemma_partition_at_105();
    assert(partition_terms(327, 24) == 60105349821230153);
    lemma_partition_at_80();
    assert(partition_terms(327, 25) == 60105349837026629);
    lemma_partition_at_67();
    assert(partition_terms(327, 26) == 60105349839706318);
    lemma_partition_at_40();
    assert(partition_terms(327, 27) == 60105349839668980);
    lemma_partition_at_26();
    assert(partition_terms(327, 28) == 60105349839666544);
}

/// The recurrence at 328.
proof fn lemma_partition_at_328()
    ensures
        partition_number(328) == 64325374609114550,
{
    lemma_pentagonal_values();
    lemma_partition_terms_stable(328, 28, 328);
    assert(partition_terms(328, 0) == 0);
    lemma_partition_at_327();
    assert(partition_terms(328, 1) == 60105349839666544);
    lemma_partition_at_326();
    assert(partition_terms(328, 2) == 116261951952540833);
    lemma_partition_at_323();
    assert(partition_terms(328, 3) == 70489593408962805);
    lemma_partition_at_321();
    assert(partition_terms(328, 4) == 30570027881962814);
    lemma_partition_at_316();
    assert(partition_terms(328, 5) == 58875048222958817);
    lemma_partition_at_313();
    assert(partition_terms(328, 6) == 81875054878446154);
    lemma_partition_at_306();
    assert(partition_terms(328, 7) == 67756392213166149);
    lemma_partition_at_302();
    assert(partition_terms(328, 8) == 57099060980617310);
    lemma_partition_at_293();
    assert(partition_terms(328, 9) == 62722053672567915);
    lemma_partition_at_288();
    assert(partition_terms(328, 10) == 66647975834057337);
    lemma_partition_at_277();
    assert(partition_terms(328, 11) == 64885697401000068);
    lemma_partition_at_271();
    assert(partition_terms(328, 12) == 63754458897061462);
    lemma_partition_at_258();
    assert(partition_terms(328, 13) == 64180391981470818);
    lemma_partition_at_251();
    assert(partition_terms(328, 14) == 64429683432639377);
    lemma_partition_at_236();
    assert(partition_terms(328, 15) == 64352487539975865);
    lemma_partition_at_228();
    assert(partition_terms(328, 16) == 64311769476348503);
    lemma_partition_at_211();
    assert(partition_terms(328, 17) == 64321854542234270);
    lemma_partition_at_202();
    assert(partition_terms(328, 18) == 64326569109120353);
    lemma_partition_at_183();
    assert(partition_terms(328, 19) == 64325672424302826);
    lemma_partition_at_173();
    assert(partition_terms(328, 20) == 64325310097442931);
    lemma_partition_at_152();
    assert(partition_terms(328, 21) == 64325359783731352);
    lemma_partition_at_141();
    assert(partition_terms(328, 22) == 64325376454420560);
    lemma_partition_at_118();
    assert(partition_terms(328, 23) == 64325374972346417);
    lemma_partition_at_106();
    assert(partition_terms(328, 24) == 64325374588070081);
    lemma_partition_at_81();
    assert(partition_terms(328, 25) == 64325374606074408);
    lemma_partition_at_68();
    assert(partition_terms(328, 26) == 64325374609162143);
    lemma_partition_at_41();
    assert(partition_terms(328, 27) == 64325374609117560);
    lemma_partition_at_27();
    assert(partition_terms(328, 28) == 64325374609114550);
}

/// The recurrence at 329.
proof fn lemma_partition_at_329()
    ensures
        partition_number(329) == 68834885946073850,
{
    lemma_pentagonal_values();
    lemma_partition_terms_stable(329, 28, 329);
    assert(partition_terms(329, 0) == 0);
    lemma_partition_at_328();
    assert(partition_terms(329, 1) == 64325374609114550);
    lemma_partition_at_327();
    assert(partition_terms(329, 2) == 124430724448781094);
    lemma_partition_at_324();
    assert(partition_terms(329, 3) == 75425080813543219);
    lemma_partition_at_322();
    assert(partition_terms(329, 4) == 32677002777588523);
    lemma_partition_at_317();
    assert(partition_terms(329, 5) == 63003184767431487);
    lemma_partition_at_314();
    assert(partition_terms(329, 6) == 87653290918261977);
    lemma_partition_at_307();
    assert(partition_terms(329, 7) == 72510338179404783);
    lemma_partition_at_303();
    assert(partition_terms(329, 8) == 61074796101582679);
    lemma_partition_at_294();
    assert(partition_terms(329, 9) == 67114559983678194);
    lemma_partition_at_289();
    assert(partition_terms(329, 10) == 71333948512265289);
    lemma_partition_at_278();
    assert(partition_terms(329, 11) == 69437384408673705);
    lemma_partition_at_272();
    assert(partition_terms(329, 12) == 68219010058829372);
    lemma_partition_at_259();
    assert(partition_terms(329, 13) == 68678555809278047);
    lemma_partition_at_252();
    assert(partition_terms(329, 14) == 68947788510530626);
    lemma_partition_at_237();
    assert(partition_terms(329, 15) == 68864227406604755);
    lemma_partition_at_229();
    assert(partition_terms(329, 16) == 68820094471720500);
    lemma_partition_at_212();
    assert(partition_terms(329, 17) == 68831058178925759);
    lemma_partition_at_203();
    assert(partition_terms(329, 18) == 68836192384213732);
    lemma_partition_at_184();
    assert(partition_terms(329, 19) == 68835211921333302);
    lemma_partition_at_174();
    assert(partition_terms(329, 20) == 68834814796258552);
    lemma_partition_at_153();
    assert(partition_terms(329, 21) == 68834869566594876);
    lemma_partition_at_142();
    assert(partition_terms(329, 22) == 68834888006888196);
    lemma_partition_at_119();
    assert(partition_terms(329, 23) == 68834886353219531);
    lemma_partition_at_107();
    assert(partition_terms(329, 24) == 68834885922070142);
    lemma_partition_at_82();
    assert(partition_terms(329, 25) == 68834885942576397);
    lemma_partition_at_69();
    assert(partition_terms(329, 26) == 68834885946130742);
    lemma_partition_at_42();
    assert(partition_terms(329, 27) == 68834885946077568);
    lemma_partition_at_28();
    assert(partition_terms(329, 28) == 68834885946073850);
}

/// The recurrence at 330.
proof fn lemma_partition_at_330()
    ensures
        partition_number(330) == 73653287861850339,
{
    lemma_pentagonal_values();
    lemma_partition_terms_stable(330, 29, 330);
    assert(partition_terms(330, 0) == 0);
    lemma_partition_at_329();
    assert(partition_terms(330, 1) == 68834885946073850);
    lemma_partition_at_328();
    assert(partition_terms(330, 2) == 133160260555188400);
    lemma_partition_at_325();
    assert(partition_terms(330, 3) == 80698216326359759);
    lemma_partition_at_323();
    assert(partition_terms(330, 4) == 34925857782781731);
    lemma_partition_at_318();
    assert(partition_terms(330, 5) == 67414151134248385);
    lemma_partition_at_315();
    assert(partition_terms(330, 6) == 93829958767814711);
    lemma_partition_at_308();
    assert(partition_terms(330, 7) == 77590172231985048);
    lemma_partition_at_304();
    assert(partition_terms(330, 8) == 65320954212755583);
    lemma_partition_at_295();
    assert(partition_terms(330, 9) == 71807628339834671);
    lemma_partition_at_290();
    assert(partition_terms(330, 10) == 76341881466735557);
    lemma_partition_at_279();
    assert(partition_terms(330, 11) == 74301055614160482);
    lemma_partition_at_273();
    assert(partition_terms(330, 12) == 72989003813344267);
    lemma_partition_at_260();
    assert(partition_terms(330, 13) == 73484745748105113);
    lemma_partition_at_253();
    assert(partition_terms(330, 14) == 73775472706021225);
    lemma_partition_at_238();
    assert(partition_terms(330, 15) == 73685035866352408);
    lemma_partition_at_230();
    assert(partition_terms(330, 16) == 73637209626606488);
    lemma_partition_at_213();
    assert(partition_terms(330, 17) == 73649126307842766);
    lemma_partition_at_204();
    assert(partition_terms(330, 18) == 73654716396160261);
    lemma_partition_at_185();
    assert(partition_terms(330, 19) == 73653644572385924);
    lemma_partition_at_175();
    assert(partition_terms(330, 20) == 73653209414688094);
    lemma_partition_at_154();
    assert(partition_terms(330, 21) == 73653269771361374);
    lemma_partition_at_143();
    assert(partition_terms(330, 22) == 73653290162344131);
    lemma_partition_at_120();
    assert(partition_terms(330, 23) == 73653288317994571);
    lemma_partition_at_108();
    assert(partition_terms(330, 24) == 73653287834491727);
    lemma_partition_at_83();
    assert(partition_terms(330, 25) == 73653287857830196);
    lemma_partition_at_70();
    assert(partition_terms(330, 26) == 73653287861918164);
    lemma_partition_at_43();
    assert(partition_terms(330, 27) == 73653287861854903);
    lemma_partition_at_29();
    assert(partition_terms(330, 28) == 73653287861850338);
    lemma_partition_at_0();
    assert(partition_terms(330, 29) == 73653287861850339);
}

/// The recurrence at 331.
proof fn lemma_partition_at_331()
    ensures
        partition_number(331) == 78801255302666615,
{
    lemma_pentagonal_values();
    lemma_partition_terms_stable(331, 29, 331);
    assert(partition_terms(331, 0) == 0);
    lemma_partition_at_330();
    assert(partition_terms(331, 1) == 73653287861850339);
    lemma_partition_at_329();
    assert(partition_terms(331, 2) == 142488173807924189);
    lemma_partition_at_326();
    assert(partition_terms(331, 3) == 86331571695049900);
    lemma_partition_at_324();
    assert(partition_terms(331, 4) == 37325928059812025);
    lemma_partition_at_319();
    assert(partition_terms(331, 5) == 72126882929252855);
    lemma_partition_at_316();
    assert(partition_terms(331, 6) == 100431903270248858);
    lemma_partition_at_309();
    assert(partition_terms(331, 7) == 83017723137101563);
    lemma_partition_at_305();
    assert(partition_terms(331, 8) == 69855505242043859);
    lemma_partition_at_296();
    assert(partition_terms(331, 9) == 76821355386239690);
    lemma_partition_at_291();
    assert(partition_terms(331, 10) == 81693393442711774);
    lemma_partition_at_280();
    assert(partition_terms(331, 11) == 79497607131029258);
    lemma_partition_at_274();
    assert(partition_terms(331, 12) == 78084857565855808);
    lemma_partition_at_261();
    assert(partition_terms(331, 13) == 78619572628764417);
    lemma_partition_at_254();
    assert(partition_terms(331, 14) == 78933464620071082);
    lemma_partition_at_239();
    assert(partition_terms(331, 15) == 78835601686367497);
    lemma_partition_at_231();
    assert(partition_terms(331, 16) == 78783781634528785);
    lemma_partition_at_214();
    assert(partition_terms(331, 17) == 78796731730454680);
    lemma_partition_at_205();
    assert(partition_terms(331, 18) == 78802816984313940);
    lemma_partition_at_186();
    assert(partition_terms(331, 19) == 78801645551621567);
    lemma_partition_at_176();
    assert(partition_terms(331, 20) == 78801168835764277);
    lemma_partition_at_155();
    assert(partition_terms(331, 21) == 78801235328946374);
    lemma_partition_at_144();
    assert(partition_terms(331, 22) == 78801257869600819);
    lemma_partition_at_121();
    assert(partition_terms(331, 23) == 78801255813452768);
    lemma_partition_at_109();
    assert(partition_terms(331, 24) == 78801255271506528);
    lemma_partition_at_84();
    assert(partition_terms(331, 25) == 78801255298050188);
    lemma_partition_at_71();
    assert(partition_terms(331, 26) == 78801255302747393);
    lemma_partition_at_44();
    assert(partition_terms(331, 27) == 78801255302672218);
    lemma_partition_at_30();
    assert(partition_terms(331, 28) == 78801255302666614);
    lemma_partition_at_1();
    assert(partition_terms(331, 29) == 78801255302666615);
}

/// The recurrence at 332.
proof fn lemma_partition_at_332()
    ensures
        partition_number(332) == 84300815636225119,
{
    lemma_pentagonal_values();
    lemma_partition_terms_stable(332, 29, 332);
    assert(partition_terms(332, 0) == 0);
    lemma_partition_at_331();
    assert(partition_terms(332, 1) == 78801255302666615);
    lemma_partition_at_330();
    assert(partition_terms(332, 2) == 152454543164516954);
    lemma_partition_at_327();
    assert(partition_terms(332, 3) == 92349193324850410);
    lemma_partition_at_325();
    assert(partition_terms(332, 4) == 39887149096021769);
    lemma_partition_at_320();
    assert(partition_terms(332, 5) == 77161554872769846);
    lemma_partition_at_317();
    assert(partition_terms(332, 6) == 107487736862612810);
    lemma_partition_at_310();
    assert(partition_terms(332, 7) == 88816248563012446);
    lemma_partition_at_306();
    assert(partition_terms(332, 8) == 74697585897732441);
    lemma_partition_at_297();
    assert(partition_terms(332, 9) == 82177150976243025);
    lemma_partition_at_292();
    assert(partition_terms(332, 10) == 87411522045996697);
    lemma_partition_at_281();
    assert(partition_terms(332, 11) == 85049302900658986);
    lemma_partition_at_275();
    assert(partition_terms(332, 12) == 83528322407807811);
    lemma_partition_at_262();
    assert(partition_terms(332, 13) == 84104995082754979);
    lemma_partition_at_255();
    assert(partition_terms(332, 14) == 84443849347003659);
    lemma_partition_at_240();
    assert(partition_terms(332, 15) == 84337967100280926);
    lemma_partition_at_232();
    assert(partition_terms(332, 16) == 84281828951609979);
    lemma_partition_at_215();
    assert(partition_terms(332, 17) == 84295899497309266);
    lemma_partition_at_206();
    assert(partition_terms(332, 18) == 84302522485017306);
    lemma_partition_at_187();
    assert(partition_terms(332, 19) == 84301242473975038);
    lemma_partition_at_177();
    assert(partition_terms(332, 20) == 84300720358143843);
    lemma_partition_at_156();
    assert(partition_terms(332, 21) == 84300793590387602);
    lemma_partition_at_145();
    assert(partition_terms(332, 22) == 84300818499245611);
    lemma_partition_at_122();
    assert(partition_terms(332, 23) == 84300816207924699);
    lemma_partition_at_110();
    assert(partition_terms(332, 24) == 84300815600760953);
    lemma_partition_at_85();
    assert(partition_terms(332, 25) == 84300815630928310);
    lemma_partition_at_72();
    assert(partition_terms(332, 26) == 84300815636321093);
    lemma_partition_at_45();
    assert(partition_terms(332, 27) == 84300815636231959);
    lemma_partition_at_31();
    assert(partition_terms(332, 28) == 84300815636225117);
    lemma_partition_at_2();
    assert(partition_terms(332, 29) == 84300815636225119);
}

/// The recurrence at 333.
proof fn lemma_partition_at_333()
    ensures
        partition_number(333) == 90175434980549623,
{
    lemma_pentagonal_values();
    lemma_partition_terms_stable(333, 29, 333);
    assert(partition_terms(333, 0) == 0);
    lemma_partition_at_332();
    assert(partition_terms(333, 1) == 84300815636225119);
    lemma_partition_at_331();
    assert(partition_terms(333, 2) == 163102070938891734);
    lemma_partition_at_328();
    assert(partition_terms(333, 3) == 98776696329777184);
    lemma_partition_at_326();
    assert(partition_terms(333, 4) == 42620094216902895);
    lemma_partition_at_321();
    assert(partition_terms(333, 5) == 82539659743902886);
    lemma_partition_at_318();
    assert(partition_terms(333, 6) == 115027953095369540);
    lemma_partition_at_311();
    assert(partition_terms(333, 7) == 95010526332792595);
    lemma_partition_at_307();
    assert(partition_terms(333, 8) == 79867573593935401);
    lemma_partition_at_298();
    assert(partition_terms(333, 9) == 87897821978878441);
    lemma_partition_at_293();
    assert(partition_terms(333, 10) == 93520814670829046);
    lemma_partition_at_282();
    assert(partition_terms(333, 11) == 90979862080783348);
    lemma_partition_at_276();
    assert(partition_terms(333, 12) == 89342568111446177);
    lemma_partition_at_263();
    assert(partition_terms(333, 13) == 89964405527955792);
    lemma_partition_at_256();
    assert(partition_terms(333, 14) == 90330155094826574);
    lemma_partition_at_241();
    assert(partition_terms(333, 15) == 90215614210273536);
    lemma_partition_at_233();
    assert(partition_terms(333, 16) == 90154808074835207);
    lemma_partition_at_216();
    assert(partition_terms(333, 17) == 90170093226083688);
    lemma_partition_at_207();
    assert(partition_terms(333, 18) == 90177300067790178);
    lemma_partition_at_188();
    assert(partition_terms(333, 19) == 90175901726044607);
    lemma_partition_at_178();
    assert(partition_terms(333, 20) == 90175330024438952);
    lemma_partition_at_157();
    assert(partition_terms(333, 21) == 90175410655403721);
    lemma_partition_at_146();
    assert(partition_terms(333, 22) == 90175438172456320);
    lemma_partition_at_123();
    assert(partition_terms(333, 23) == 90175435620118079);
    lemma_partition_at_111();
    assert(partition_terms(333, 24) == 90175434940214876);
    lemma_partition_at_86();
    assert(partition_terms(333, 25) == 90175434974477838);
    lemma_partition_at_73();
    assert(partition_terms(333, 26) == 90175434980663527);
    lemma_partition_at_46();
    assert(partition_terms(333, 27) == 90175434980557969);
    lemma_partition_at_32();
    assert(partition_terms(333, 28) == 90175434980549620);
    lemma_partition_at_3();
    assert(partition_terms(333, 29) == 90175434980549623);
}

/// The recurrence at 334.
proof fn lemma_partition_at_334()
    ensures
        partition_number(334) == 96450110192202760,
{
    lemma_pentagonal_values();
    lemma_partition_terms_stable(334, 29, 334);
    assert(partition_terms(334, 0) == 0);
    lemma_partition_at_333();
    assert(partition_terms(334, 1) == 90175434980549623);
    lemma_partition_at_332();
    assert(partition_terms(334, 2) == 174476250616774742);
    lemma_partition_at_329();
    assert(partition_terms(334, 3) == 105641364670700892);
    lemma_partition_at_327();
    assert(partition_terms(334, 4) == 45536014831034348);
    lemma_partition_at_322();
    assert(partition_terms(334, 5) == 88284092866989044);
    lemma_partition_at_319();
    assert(partition_terms(334, 6) == 123085047736429874);
    lemma_partition_at_312();
    assert(partition_terms(334, 7) == 101626951699076983);
    lemma_partition_at_308();
    assert(partition_terms(334, 8) == 85387165163247320);
    lemma_partition_at_299();
    assert(partition_terms(334, 9) == 94007661438712345);
    lemma_partition_at_294();
    assert(partition_terms(334, 10) == 100047425320807860);
    lemma_partition_at_283();
    assert(partition_terms(334, 11) == 97314552137260325);
    lemma_partition_at_277();
    assert(partition_terms(334, 12) == 95552273704203056);
    lemma_partition_at_264();
    assert(partition_terms(334, 13) == 96222721827263226);
    lemma_partition_at_257();
    assert(partition_terms(334, 14) == 96617445503918583);
    lemma_partition_at_242();
    assert(partition_terms(334, 15) == 96493557060841324);
    lemma_partition_at_234();
    assert(partition_terms(334, 16) == 96427705474871049);
    lemma_partition_at_217();
    assert(partition_terms(334, 17) == 96444307072978963);
    lemma_partition_at_208();
    assert(partition_terms(334, 18) == 96452147729205100);
    lemma_partition_at_189();
    assert(partition_terms(334, 19) == 96450620455605475);
    lemma_partition_at_179();
    assert(partition_terms(334, 20) == 96449994608852355);
    lemma_partition_at_158();
    assert(partition_terms(334, 21) == 96450083360631157);
    lemma_partition_at_147();
    assert(partition_terms(334, 22) == 96450113749303135);
    lemma_partition_at_124();
    assert(partition_terms(334, 23) == 96450110907362635);
    lemma_partition_at_112();
    assert(partition_terms(334, 24) == 96450110146360479);
    lemma_partition_at_87();
    assert(partition_terms(334, 25) == 96450110185248152);
    lemma_partition_at_74();
    assert(partition_terms(334, 26) == 96450110192337652);
    lemma_partition_at_47();
    assert(partition_terms(334, 27) == 96450110192212898);
    lemma_partition_at_33();
    assert(partition_terms(334, 28) == 96450110192202755);
    lemma_partition_at_4();
    assert(partition_terms(334, 29) == 96450110192202760);
}

/// The recurrence at 335.
proof fn lemma_partition_at_335()
    ensures
        partition_number(335) == 103151466321735325,
{
    lemma_pentagonal_values();
    lemma_partition_terms_stable(335, 29, 335);
    assert(partition_terms(335, 0) == 0);
    lemma_partition_at_334();
    assert(partition_terms(335, 1) == 96450110192202760);
    lemma_partition_at_333();
    assert(partition_terms(335, 2) == 186625545172752383);
    lemma_partition_at_330();
    assert(partition_terms(335, 3) == 112972257310902044);
    lemma_partition_at_328();
    assert(partition_terms(335, 4) == 48646882701787494);
    lemma_partition_at_323();
    assert(partition_terms(335, 5) == 94419241245365522);
    lemma_partition_at_320();
    assert(partition_terms(335, 6) == 131693647022113599);
    lemma_partition_at_313();
    assert(partition_terms(335, 7) == 108693640366626262);
    lemma_partition_at_309();
    assert(partition_terms(335, 8) == 91279460233478967);
    lemma_partition_at_300();
    assert(partition_terms(335, 9) == 100532543170202569);
    lemma_partition_at_295();
    assert(partition_terms(335, 10) == 107019217297281657);
    lemma_partition_at_284();
    assert(partition_terms(335, 11) == 104080287503352102);
    lemma_partition_at_278();
    assert(partition_terms(335, 12) == 102183723399760518);
    lemma_partition_at_265();
    assert(partition_terms(335, 13) == 102906484353450890);
    lemma_partition_at_258();
    assert(partition_terms(335, 14) == 103332417437860246);
    lemma_partition_at_243();
    assert(partition_terms(335, 15) == 103198439178515358);
    lemma_partition_at_235();
    assert(partition_terms(335, 16) == 103127134993000439);
    lemma_partition_at_218();
    assert(partition_terms(335, 17) == 103145163175517110);
    lemma_partition_at_209();
    assert(partition_terms(335, 18) == 103153691756819485);
    lemma_partition_at_190();
    assert(partition_terms(335, 19) == 103152024029415392);
    lemma_partition_at_180();
    assert(partition_terms(335, 20) == 103151339072024456);
    lemma_partition_at_159();
    assert(partition_terms(335, 21) == 103151436734753011);
    lemma_partition_at_148();
    assert(partition_terms(335, 22) == 103151470284172508);
    lemma_partition_at_125();
    assert(partition_terms(335, 23) == 103151467121045156);
    lemma_partition_at_113();
    assert(partition_terms(335, 24) == 103151466269668528);
    lemma_partition_at_88();
    assert(partition_terms(335, 25) == 103151466313776637);
    lemma_partition_at_75();
    assert(partition_terms(335, 26) == 103151466321894901);
    lemma_partition_at_48();
    assert(partition_terms(335, 27) == 103151466321747628);
    lemma_partition_at_34();
    assert(partition_terms(335, 28) == 103151466321735318);
    lemma_partition_at_5();
    assert(partition_terms(335, 29) == 103151466321735325);
}

/// The recurrence at 336.
proof fn lemma_partition_at_336()
    ensures
        partition_number(336) == 110307860425292772,
{
    lemma_pentagonal_values();
    lemma_partition_terms_stable(336, 29, 336);
    assert(partition_terms(336, 0) == 0);
    lemma_partition_at_335();
    assert(partition_terms(336, 1) == 103151466321735325);
    lemma_partition_at_334();
    assert(partition_terms(336, 2) == 199601576513938085);
    lemma_partition_at_331();
    assert(partition_terms(336, 3) == 120800321211271470);
    lemma_partition_at_329();
    assert(partition_terms(336, 4) == 51965435265197620);
    lemma_partition_at_324();
    assert(partition_terms(336, 5) == 100971078900435495);
    lemma_partition_at_321();
    assert(partition_terms(336, 6) == 140890644427435486);
    lemma_partition_at_314();
    assert(partition_terms(336, 7) == 116240538276604996);
    lemma_partition_at_310();
    assert(partition_terms(336, 8) == 97569049977004632);
    lemma_partition_at_301();
    assert(partition_terms(336, 9) == 107500022369408133);
    lemma_partition_at_296();
    assert(partition_terms(336, 10) == 114465872513603964);
    lemma_partition_at_285();
    assert(partition_terms(336, 11) == 111305734646454967);
    lemma_partition_at_279();
    assert(partition_terms(336, 12) == 109264908793879892);
    lemma_partition_at_266();
    assert(partition_terms(336, 13) == 110043959423442059);
    lemma_partition_at_259();
    assert(partition_terms(336, 14) == 110503505173890734);
    lemma_partition_at_244();
    assert(partition_terms(336, 15) == 110358637481394289);
    lemma_partition_at_236();
    assert(partition_terms(336, 16) == 110281441588730777);
    lemma_partition_at_219();
    assert(partition_terms(336, 17) == 110301015444891922);
    lemma_partition_at_210();
    assert(partition_terms(336, 18) == 110310290547467277);
    lemma_partition_at_191();
    assert(partition_terms(336, 19) == 110308469846366625);
    lemma_partition_at_181();
    assert(partition_terms(336, 20) == 110307720371954844);
    lemma_partition_at_160();
    assert(partition_terms(336, 21) == 110307827810114310);
    lemma_partition_at_149();
    assert(partition_terms(336, 22) == 110307864837469510);
    lemma_partition_at_126();
    assert(partition_terms(336, 23) == 110307861318246818);
    lemma_partition_at_114();
    assert(partition_terms(336, 24) == 110307860366196153);
    lemma_partition_at_89();
    assert(partition_terms(336, 25) == 110307860416192078);
    lemma_partition_at_76();
    assert(partition_terms(336, 26) == 110307860425481169);
    lemma_partition_at_49();
    assert(partition_terms(336, 27) == 110307860425307644);
    lemma_partition_at_35();
    assert(partition_terms(336, 28) == 110307860425292761);
    lemma_partition_at_6();
    assert(partition_terms(336, 29) == 110307860425292772);
}

/// The recurrence at 337.
proof fn lemma_partition_at_337()
    ensures
        partition_number(337) == 117949491546113972,
{
    lemma_pentagonal_values();
    lemma_partition_terms_stable(337, 29, 337);
    assert(partition_terms(337, 0) == 0);
    lemma_partition_at_336();
    assert(partition_terms(337, 1) == 110307860425292772);
    lemma_partition_at_335();
    assert(partition_terms(337, 2) == 213459326747028097);
    lemma_partition_at_332();
    assert(partition_terms(337, 3) == 129158511110802978);
    lemma_partition_at_330();
    assert(partition_terms(337, 4) == 55505223248952639);
    lemma_partition_at_325();
    assert(partition_terms(337, 5) == 107967267477781280);
    lemma_partition_at_322();
    assert(partition_terms(337, 6) == 150715345513735976);
    lemma_partition_at_315();
    assert(partition_terms(337, 7) == 124299537880169650);
    lemma_partition_at_311();
    assert(partition_terms(337, 8) == 104282111117592705);
    lemma_partition_at_302();
    assert(partition_terms(337, 9) == 114939442350141544);
    lemma_partition_at_297();
    assert(partition_terms(337, 10) == 122419007428652128);
    lemma_partition_at_286();
    assert(partition_terms(337, 11) == 119021423416665355);
    lemma_partition_at_280();
    assert(partition_terms(337, 12) == 116825637104982839);
    lemma_partition_at_267();
    assert(partition_terms(337, 13) == 117665248835349653);
    lemma_partition_at_260();
    assert(partition_terms(337, 14) == 118160990770110499);
    lemma_partition_at_245();
    assert(partition_terms(337, 15) == 118004372357582553);
    lemma_partition_at_237();
    assert(partition_terms(337, 16) == 117920811253656682);
    lemma_partition_at_220();
    assert(partition_terms(337, 17) == 117942059532666049);
    lemma_partition_at_211();
    assert(partition_terms(337, 18) == 117952144598551816);
    lemma_partition_at_192();
    assert(partition_terms(337, 19) == 117950157321695453);
    lemma_partition_at_182();
    assert(partition_terms(337, 20) == 117949337444787130);
    lemma_partition_at_161();
    assert(partition_terms(337, 21) == 117949455603855557);
    lemma_partition_at_150();
    assert(partition_terms(337, 22) == 117949496457090870);
    lemma_partition_at_127();
    assert(partition_terms(337, 23) == 117949492543226575);
    lemma_partition_at_115();
    assert(partition_terms(337, 24) == 117949491479082124);
    lemma_partition_at_90();
    assert(partition_terms(337, 25) == 117949491535716297);
    lemma_partition_at_77();
    assert(partition_terms(337, 26) == 117949491546336160);
    lemma_partition_at_50();
    assert(partition_terms(337, 27) == 117949491546131934);
    lemma_partition_at_36();
    assert(partition_terms(337, 28) == 117949491546113957);
    lemma_partition_at_7();
    assert(partition_terms(337, 29) == 117949491546113972);
}

/// The recurrence at 338.
proof fn lemma_partition_at_338()
    ensures
        partition_number(338) == 126108517833796355,
{
    lemma_pentagonal_values();
    lemma_partition_terms_stable(338, 29, 338);
    assert(partition_terms(338, 0) == 0);
    lemma_partition_at_337();
    assert(partition_terms(338, 1) == 117949491546113972);
    lemma_partition_at_336();
    assert(partition_terms(338, 2) == 228257351971406744);
    lemma_partition_at_333();
    assert(partition_terms(338, 3) == 138081916990857121);
    lemma_partition_at_331();
    assert(partition_terms(338, 4) == 59280661688190506);
    lemma_partition_at_326();
    assert(partition_terms(338, 5) == 115437263801064795);
    lemma_partition_at_323();
    assert(partition_terms(338, 6) == 161209622344642823);
    lemma_partition_at_316();
    assert(partition_terms(338, 7) == 132904602003646820);
    lemma_partition_at_312();
    assert(partition_terms(338, 8) == 111446505966293929);
    lemma_partition_at_303();
    assert(partition_terms(338, 9) == 122882048044116033);
    lemma_partition_at_298();
    assert(partition_terms(338, 10) == 130912296429059073);
    lemma_partition_at_287();
    assert(partition_terms(338, 11) == 127259865592988020);
    lemma_partition_at_281();
    assert(partition_terms(338, 12) == 124897646447650309);
    lemma_partition_at_268();
    assert(partition_terms(338, 13) == 125802406555966669);
    lemma_partition_at_261();
    assert(partition_terms(338, 14) == 126337121618875278);
    lemma_partition_at_246();
    assert(partition_terms(338, 15) == 126167824896483724);
    lemma_partition_at_238();
    assert(partition_terms(338, 16) == 126077388056814907);
    lemma_partition_at_221();
    assert(partition_terms(338, 17) == 126100449927988756);
    lemma_partition_at_212();
    assert(partition_terms(338, 18) == 126111413635194015);
    lemma_partition_at_193();
    assert(partition_terms(338, 19) == 126109245008088546);
    lemma_partition_at_183();
    assert(partition_terms(338, 20) == 126108348323271019);
    lemma_partition_at_162();
    assert(partition_terms(338, 21) == 126108478237175656);
    lemma_partition_at_151();
    assert(partition_terms(338, 22) == 126108523297800238);
    lemma_partition_at_128();
    assert(partition_terms(338, 23) == 126108518946721638);
    lemma_partition_at_116();
    assert(partition_terms(338, 24) == 126108517757813390);
    lemma_partition_at_91();
    assert(partition_terms(338, 25) == 126108517821925749);
    lemma_partition_at_78();
    assert(partition_terms(338, 26) == 126108517834057913);
    lemma_partition_at_51();
    assert(partition_terms(338, 27) == 126108517833817970);
    lemma_partition_at_37();
    assert(partition_terms(338, 28) == 126108517833796333);
    lemma_partition_at_8();
    assert(partition_terms(338, 29) == 126108517833796355);
}

/// The recurrence at 339.
proof fn lemma_partition_at_339()
    ensures
        partition_number(339) == 134819180623301520,
{
    lemma_pentagonal_values();
    lemma_partition_terms_stable(339, 29, 339);
    assert(partition_terms(339, 0) == 0);
    lemma_partition_at_338();
    assert(partition_terms(339, 1) == 126108517833796355);
    lemma_partition_at_337();
    assert(partition_terms(339, 2) == 244058009379910327);
    lemma_partition_at_334();
    assert(partition_terms(339, 3) == 147607899187707567);
    lemma_partition_at_332();
    assert(partition_terms(339, 4) == 63307083551482448);
    lemma_partition_at_327();
    assert(partition_terms(339, 5) == 123412433391148992);
    lemma_partition_at_324();
    assert(partition_terms(339, 6) == 172418077026386867);
    lemma_partition_at_317();
    assert(partition_terms(339, 7) == 142091895036543903);
    lemma_partition_at_313();
    assert(partition_terms(339, 8) == 119091888381056566);
    lemma_partition_at_304();
    assert(partition_terms(339, 9) == 131361106400286031);
    lemma_partition_at_299();
    assert(partition_terms(339, 10) == 139981602675751056);
    lemma_partition_at_288();
    assert(partition_terms(339, 11) == 136055680514261634);
    lemma_partition_at_282();
    assert(partition_terms(339, 12) == 133514727924215936);
    lemma_partition_at_269();
    assert(partition_terms(339, 13) == 134489562294160561);
    lemma_partition_at_262();
    assert(partition_terms(339, 14) == 135066234969107729);
    lemma_partition_at_247();
    assert(partition_terms(339, 15) == 134883261079253703);
    lemma_partition_at_239();
    assert(partition_terms(339, 16) == 134785398145550118);
    lemma_partition_at_222();
    assert(partition_terms(339, 17) == 134810424019310229);
    lemma_partition_at_213();
    assert(partition_terms(339, 18) == 134822340700546507);
    lemma_partition_at_194();
    assert(partition_terms(339, 19) == 134819974677804662);
    lemma_partition_at_184();
    assert(partition_terms(339, 20) == 134818994214924232);
    lemma_partition_at_163();
    assert(partition_terms(339, 21) == 134819137013920162);
    lemma_partition_at_152();
    assert(partition_terms(339, 22) == 134819186700208583);
    lemma_partition_at_129();
    assert(partition_terms(339, 23) == 134819181864936713);
    lemma_partition_at_117();
    assert(partition_terms(339, 24) == 134819180537226637);
    lemma_partition_at_92();
    assert(partition_terms(339, 25) == 134819180609760444);
    lemma_partition_at_79();
    assert(partition_terms(339, 26) == 134819180623609094);
    lemma_partition_at_52();
    assert(partition_terms(339, 27) == 134819180623327505);
    lemma_partition_at_38();
    assert(partition_terms(339, 28) == 134819180623301490);
    lemma_partition_at_9();
    assert(partition_terms(339, 29) == 134819180623301520);
}

/// The recurrence at 340.
proof fn lemma_partition_at_340()
    ensures
        partition_number(340) == 144117936527873832,
{
    lemma_pentagonal_values();
    lemma_partition_terms_stable(340, 29, 340);
    assert(partition_terms(340, 0) == 0);
    lemma_partition_at_339();
    assert(partition_terms(340, 1) == 134819180623301520);
    lemma_partition_at_338();
    assert(partition_terms(340, 2) == 260927698457097875);
    lemma_partition_at_335();
    assert(partition_terms(340, 3) == 157776232135362550);
    lemma_partition_at_333();
    assert(partition_terms(340, 4) == 67600797154812927);
    lemma_partition_at_328();
    assert(partition_terms(340, 5) == 131926171763927477);
    lemma_partition_at_325();
    assert(partition_terms(340, 6) == 184388215992756118);
    lemma_partition_at_318();
    assert(partition_terms(340, 7) == 151899922641289464);
    lemma_partition_at_314();
    assert(partition_terms(340, 8) == 127249816490458974);
    lemma_partition_at_305();
    assert(partition_terms(340, 9) == 140412034385516678);
    lemma_partition_at_300();
    assert(partition_terms(340, 10) == 149665117322240280);
    lemma_partition_at_289();
    assert(partition_terms(340, 11) == 145445728793653185);
    lemma_partition_at_283();
    assert(partition_terms(340, 12) == 142712855610105650);
    lemma_partition_at_270();
    assert(partition_terms(340, 13) == 143763053100036767);
    lemma_partition_at_263();
    assert(partition_terms(340, 14) == 144384890516546382);
    lemma_partition_at_248();
    assert(partition_terms(340, 15) == 144187163999864710);
    lemma_partition_at_240();
    assert(partition_terms(340, 16) == 144081281753141977);
    lemma_partition_at_223();
    assert(partition_terms(340, 17) == 144108434162067592);
    lemma_partition_at_214();
    assert(partition_terms(340, 18) == 144121384257993487);
    lemma_partition_at_195();
    assert(partition_terms(340, 19) == 144118803417780514);
    lemma_partition_at_185();
    assert(partition_terms(340, 20) == 144117731594006177);
    lemma_partition_at_164();
    assert(partition_terms(340, 21) == 144117888513481472);
    lemma_partition_at_153();
    assert(partition_terms(340, 22) == 144117943283817796);
    lemma_partition_at_130();
    assert(partition_terms(340, 23) == 144117937912502396);
    lemma_partition_at_118();
    assert(partition_terms(340, 24) == 144117936430428253);
    lemma_partition_at_93();
    assert(partition_terms(340, 25) == 144117936512438430);
    lemma_partition_at_80();
    assert(partition_terms(340, 26) == 144117936528234906);
    lemma_partition_at_53();
    assert(partition_terms(340, 27) == 144117936527904975);
    lemma_partition_at_39();
    assert(partition_terms(340, 28) == 144117936527873790);
    lemma_partition_at_10();
    assert(partition_terms(340, 29) == 144117936527873832);
}

/// The recurrence at 341.
proof fn lemma_partition_at_341()
    ensures
        partition_number(341) == 154043597379576030,
{
    lemma_pentagonal_values();
    lemma_partition_terms_stable(341, 29, 341);
    assert(partition_terms(341, 0) == 0);
    lemma_partition_at_340();
    assert(partition_terms(341, 1) == 144117936527873832);
    lemma_partition_at_339();
    assert(partition_terms(341, 2) == 278937117151175352);
    lemma_partition_at_336();
    assert(partition_terms(341, 3) == 168629256725882580);
    lemma_partition_at_334();
    assert(partition_terms(341, 4) == 72179146533679820);
    lemma_partition_at_329();
    assert(partition_terms(341, 5) == 141014032479753670);
    lemma_partition_at_326();
    assert(partition_terms(341, 6) == 197170634592627959);
    lemma_partition_at_319();
    assert(partition_terms(341, 7) == 162369679723187129);
    lemma_partition_at_315();
    assert(partition_terms(341, 8) == 135953872089620803);
    lemma_partition_at_306();
    assert(partition_terms(341, 9) == 150072534754900808);
    lemma_partition_at_301();
    assert(partition_terms(341, 10) == 160003507147304309);
    lemma_partition_at_290();
    assert(partition_terms(341, 11) == 155469254020403423);
    lemma_partition_at_284();
    assert(partition_terms(341, 12) == 152530324226473868);
    lemma_partition_at_271();
    assert(partition_terms(341, 13) == 153661562730412474);
    lemma_partition_at_264();
    assert(partition_terms(341, 14) == 154332010853472644);
    lemma_partition_at_249();
    assert(partition_terms(341, 15) == 154118373933652019);
    lemma_partition_at_241();
    assert(partition_terms(341, 16) == 154003833049098981);
    lemma_partition_at_224();
    assert(partition_terms(341, 17) == 154033287599040731);
    lemma_partition_at_215();
    assert(partition_terms(341, 18) == 154047358144740018);
    lemma_partition_at_196();
    assert(partition_terms(341, 19) == 154044543573752427);
    lemma_partition_at_186();
    assert(partition_terms(341, 20) == 154043372141060054);
    lemma_partition_at_165();
    assert(partition_terms(341, 21) == 154043544530860309);
    lemma_partition_at_154();
    assert(partition_terms(341, 22) == 154043604887533589);
    lemma_partition_at_131();
    assert(partition_terms(341, 23) == 154043598922994085);
    lemma_partition_at_119();
    assert(partition_terms(341, 24) == 154043597269325420);
    lemma_partition_at_94();
    assert(partition_terms(341, 25) == 154043597361995140);
    lemma_partition_at_81();
    assert(partition_terms(341, 26) == 154043597379999467);
    lemma_partition_at_54();
    assert(partition_terms(341, 27) == 154043597379613312);
    lemma_partition_at_40();
    assert(partition_terms(341, 28) == 154043597379575974);
    lemma_partition_at_11();
    assert(partition_terms(341, 29) == 154043597379576030);
}

/// The recurrence at 342.
proof fn lemma_partition_at_342()
    ensures
        partition_number(342) == 164637479165761044,
{
    lemma_pentagonal_values();
    lemma_partition_terms_stable(342, 29, 342);
    assert(partition_terms(342, 0) == 0);
    lemma_partition_at_341();
    assert(partition_terms(342, 1) == 154043597379576030);
    lemma_partition_at_340();
    assert(partition_terms(342, 2) == 298161533907449862);
    lemma_partition_at_337();
    assert(partition_terms(342, 3) == 180212042361335890);
    lemma_partition_at_335();
    assert(partition_terms(342, 4) == 77060576039600565);
    lemma_partition_at_330();
    assert(partition_terms(342, 5) == 150713863901450904);
    lemma_partition_at_327();
    assert(partition_terms(342, 6) == 210819213741117448);
    lemma_partition_at_320();
    assert(partition_terms(342, 7) == 173544807964369371);
    lemma_partition_at_316();
    assert(partition_terms(342, 8) == 145239787623373368);
    lemma_partition_at_307();
    assert(partition_terms(342, 9) == 160382740362230562);
    lemma_partition_at_302();
    assert(partition_terms(342, 10) == 171040071594779401);
    lemma_partition_at_291();
    assert(partition_terms(342, 11) == 166168033538307317);
    lemma_partition_at_285();
    assert(partition_terms(342, 12) == 163007895671158320);
    lemma_partition_at_272();
    assert(partition_terms(342, 13) == 164226270021002653);
    lemma_partition_at_265();
    assert(partition_terms(342, 14) == 164949030974693025);
    lemma_partition_at_250();
    assert(partition_terms(342, 15) == 164718237420328344);
    lemma_partition_at_242();
    assert(partition_terms(342, 16) == 164594348977251085);
    lemma_partition_at_225();
    assert(partition_terms(342, 17) == 164626295367947242);
    lemma_partition_at_216();
    assert(partition_terms(342, 18) == 164641580519195723);
    lemma_partition_at_197();
    assert(partition_terms(342, 19) == 164638511689317193);
    lemma_partition_at_187();
    assert(partition_terms(342, 20) == 164637231678274925);
    lemma_partition_at_166();
    assert(partition_terms(342, 21) == 164637421013097504);
    lemma_partition_at_155();
    assert(partition_terms(342, 22) == 164637487506279601);
    lemma_partition_at_132();
    assert(partition_terms(342, 23) == 164637480885448712);
    lemma_partition_at_120();
    assert(partition_terms(342, 24) == 164637479041099152);
    lemma_partition_at_95();
    assert(partition_terms(342, 25) == 164637479145750571);
    lemma_partition_at_82();
    assert(partition_terms(342, 26) == 164637479166256826);
    lemma_partition_at_55();
    assert(partition_terms(342, 27) == 164637479165805550);
    lemma_partition_at_41();
    assert(partition_terms(342, 28) == 164637479165760967);
    lemma_partition_at_12();
    assert(partition_terms(342, 29) == 164637479165761044);
}

/// The recurrence at 343.
proof fn lemma_partition_at_343()
    ensures
        partition_number(343) == 175943559810422753,
{
    lemma_pentagonal_values();
    lemma_partition_terms_stable(343, 29, 343);
    assert(partition_terms(343, 0) == 0);
    lemma_partition_at_342();
    assert(partition_terms(343, 1) == 164637479165761044);
    lemma_partition_at_341();
    assert(partition_terms(343, 2) == 318681076545337074);
    lemma_partition_at_338();
    assert(partition_terms(343, 3) == 192572558711540719);
    lemma_partition_at_336();
    assert(partition_terms(343, 4) == 82264698286247947);
    lemma_partition_at_331();
    assert(partition_terms(343, 5) == 161065953588914562);
    lemma_partition_at_328();
    assert(partition_terms(343, 6) == 225391328198029112);
    lemma_partition_at_321();
    assert(partition_terms(343, 7) == 185471762671029121);
    lemma_partition_at_317();
    assert(partition_terms(343, 8) == 155145580681186157);
    lemma_partition_at_308();
    assert(partition_terms(343, 9) == 171385367217015820);
    lemma_partition_at_303();
    assert(partition_terms(343, 10) == 182820909294837924);
    lemma_partition_at_292();
    assert(partition_terms(343, 11) == 177586538225084252);
    lemma_partition_at_286();
    assert(partition_terms(343, 12) == 174188954213097479);
    lemma_partition_at_273();
    assert(partition_terms(343, 13) == 175501006013913694);
    lemma_partition_at_266();
    assert(partition_terms(343, 14) == 176280056643475861);
    lemma_partition_at_251();
    assert(partition_terms(343, 15) == 176030765192307302);
    lemma_partition_at_243();
    assert(partition_terms(343, 16) == 175896786932962414);
    lemma_partition_at_226();
    assert(partition_terms(343, 17) == 175931430059284933);
    lemma_partition_at_217();
    assert(partition_terms(343, 18) == 175948031657392847);
    lemma_partition_at_198();
    assert(partition_terms(343, 19) == 175944686291409149);
    lemma_partition_at_188();
    assert(partition_terms(343, 20) == 175943287949663578);
    lemma_partition_at_167();
    assert(partition_terms(343, 21) == 175943495840083680);
    lemma_partition_at_156();
    assert(partition_terms(343, 22) == 175943569072327439);
    lemma_partition_at_133();
    assert(partition_terms(343, 23) == 175943561725697927);
    lemma_partition_at_121();
    assert(partition_terms(343, 24) == 175943559669549876);
    lemma_partition_at_96();
    assert(partition_terms(343, 25) == 175943559787664180);
    lemma_partition_at_83();
    assert(partition_terms(343, 26) == 175943559811002649);
    lemma_partition_at_56();
    assert(partition_terms(343, 27) == 175943559810475826);
    lemma_partition_at_42();
    assert(partition_terms(343, 28) == 175943559810422652);
    lemma_partition_at_13();
    assert(partition_terms(343, 29) == 175943559810422753);
}

/// The recurrence at 344.
proof fn lemma_partition_at_344()
    ensures
        partition_number(344) == 188008647052292980,
{
    lemma_pentagonal_values();
    lemma_partition_terms_stable(344, 29, 344);
    assert(partition_terms(344, 0) == 0);
    lemma_partition_at_343();
    assert(partition_terms(344, 1) == 175943559810422753);
    lemma_partition_at_342();
    assert(partition_terms(344, 2) == 340581038976183797);
    lemma_partition_at_339();
    assert(partition_terms(344, 3) == 205761858352882277);
    lemma_partition_at_337();
    assert(partition_terms(344, 4) == 87812366806768305);
    lemma_partition_at_332();
    assert(partition_terms(344, 5) == 172113182442993424);
    lemma_partition_at_329();
    assert(partition_terms(344, 6) == 240948068389067274);
    lemma_partition_at_322();
    assert(partition_terms(344, 7) == 198199990353112578);
    lemma_partition_at_318();
    assert(partition_terms(344, 8) == 165711697001645924);
    lemma_partition_at_309();
    assert(partition_terms(344, 9) == 183125877134793219);
    lemma_partition_at_304();
    assert(partition_terms(344, 10) == 195395095154022684);
    lemma_partition_at_293();
    assert(partition_terms(344, 11) == 189772102462072079);
    lemma_partition_at_287();
    assert(partition_terms(344, 12) == 186119671626001026);
    lemma_partition_at_274();
    assert(partition_terms(344, 13) == 187532421191174476);
    lemma_partition_at_267();
    assert(partition_terms(344, 14) == 188372032921541290);
    lemma_partition_at_252();
    assert(partition_terms(344, 15) == 188102800220288711);
    lemma_partition_at_244();
    assert(partition_terms(344, 16) == 187957932527792266);
    lemma_partition_at_227();
    assert(partition_terms(344, 17) == 187995493661374836);
    lemma_partition_at_218();
    assert(partition_terms(344, 18) == 188013521843891507);
    lemma_partition_at_199();
    assert(partition_terms(344, 19) == 188009875771459382);
    lemma_partition_at_189();
    assert(partition_terms(344, 20) == 188008348497859757);
    lemma_partition_at_168();
    assert(partition_terms(344, 21) == 188008576702592508);
    lemma_partition_at_157();
    assert(partition_terms(344, 22) == 188008657333557277);
    lemma_partition_at_134();
    assert(partition_terms(344, 23) == 188008649184516582);
    lemma_partition_at_122();
    assert(partition_terms(344, 24) == 188008646893195670);
    lemma_partition_at_97();
    assert(partition_terms(344, 25) == 188008647026426600);
    lemma_partition_at_84();
    assert(partition_terms(344, 26) == 188008647052970260);
    lemma_partition_at_57();
    assert(partition_terms(344, 27) == 188008647052356106);
    lemma_partition_at_43();
    assert(partition_terms(344, 28) == 188008647052292845);
    lemma_partition_at_14();
    assert(partition_terms(344, 29) == 188008647052292980);
}

/// The recurrence at 345.
proof fn lemma_partition_at_345()
    ensures
        partition_number(345) == 200882556287683159,
{
    lemma_pentagonal_values();
    lemma_partition_terms_stable(345, 30, 345);
    assert(partition_terms(345, 0) == 0);
    lemma_partition_at_344();
    assert(partition_terms(345, 1) == 188008647052292980);
    lemma_partition_at_343();
    assert(partition_terms(345, 2) == 363952206862715733);
    lemma_partition_at_340();
    assert(partition_terms(345, 3) == 219834270334841901);
    lemma_partition_at_338();
    assert(partition_terms(345, 4) == 93725752501045546);
    lemma_partition_at_333();
    assert(partition_terms(345, 5) == 183901187481595169);
    lemma_partition_at_330();
    assert(partition_terms(345, 6) == 257554475343445508);
    lemma_partition_at_323();
    assert(partition_terms(345, 7) == 211782116799867480);
    lemma_partition_at_319();
    assert(partition_terms(345, 8) == 176981161930426650);
    lemma_partition_at_310();
    assert(partition_terms(345, 9) == 195652650230027014);
    lemma_partition_at_305();
    assert(partition_terms(345, 10) == 208814868125084718);
    lemma_partition_at_294();
    assert(partition_terms(345, 11) == 202775104242989203);
    lemma_partition_at_288();
    assert(partition_terms(345, 12) == 198849182081499781);
    lemma_partition_at_275();
    assert(partition_terms(345, 13) == 200370162574350956);
    lemma_partition_at_268();
    assert(partition_terms(345, 14) == 201274922682667316);
    lemma_partition_at_253();
    assert(partition_terms(345, 15) == 200984195724751204);
    lemma_partition_at_245();
    assert(partition_terms(345, 16) == 200827577312223258);
    lemma_partition_at_228();
    assert(partition_terms(345, 17) == 200868295375850620);
    lemma_partition_at_219();
    assert(partition_terms(345, 18) == 200887869232011765);
    lemma_partition_at_200();
    assert(partition_terms(345, 19) == 200883896232982377);
    lemma_partition_at_190();
    assert(partition_terms(345, 20) == 200882228505578284);
    lemma_partition_at_169();
    assert(partition_terms(345, 21) == 200882478944503399);
    lemma_partition_at_158();
    assert(partition_terms(345, 22) == 200882567696282201);
    lemma_partition_at_135();
    assert(partition_terms(345, 23) == 200882558660446125);
    lemma_partition_at_123();
    assert(partition_terms(345, 24) == 200882556108107884);
    lemma_partition_at_98();
    assert(partition_terms(345, 25) == 200882556258306020);
    lemma_partition_at_85();
    assert(partition_terms(345, 26) == 200882556288473377);
    lemma_partition_at_58();
    assert(partition_terms(345, 27) == 200882556287758157);
    lemma_partition_at_44();
    assert(partition_terms(345, 28) == 200882556287682982);
    lemma_partition_at_15();
    assert(partition_terms(345, 29) == 200882556287683158);
    lemma_partition_at_0();
    assert(partition_terms(345, 30) == 200882556287683159);
}

/// The recurrence at 346.
proof fn lemma_partition_at_346()
    ensures
        partition_number(346) == 214618299743286299,
{
    lemma_pentagonal_values();
    lemma_partition_terms_stable(346, 30, 346);
    assert(partition_terms(346, 0) == 0);
    lemma_partition_at_345();
    assert(partition_terms(346, 1) == 200882556287683159);
    lemma_partition_at_344();
    assert(partition_terms(346, 2) == 388891203339976139);
    lemma_partition_at_341();
    assert(partition_terms(346, 3) == 234847605960400109);
    lemma_partition_at_339();
    assert(partition_terms(346, 4) == 100028425337098589);
    lemma_partition_at_334();
    assert(partition_terms(346, 5) == 196478535529301349);
    lemma_partition_at_331();
    assert(partition_terms(346, 6) == 275279790831967964);
    lemma_partition_at_324();
    assert(partition_terms(346, 7) == 226274147196730089);
    lemma_partition_at_320();
    assert(partition_terms(346, 8) == 188999741419982012);
    lemma_partition_at_311();
    assert(partition_terms(346, 9) == 209017168182558957);
    lemma_partition_at_306();
    assert(partition_terms(346, 10) == 223135830847838962);
    lemma_partition_at_295();
    assert(partition_terms(346, 11) == 216649156720759874);
    lemma_partition_at_289();
    assert(partition_terms(346, 12) == 212429768192172779);
    lemma_partition_at_276();
    assert(partition_terms(346, 13) == 214067062161509950);
    lemma_partition_at_269();
    assert(partition_terms(346, 14) == 215041896531454575);
    lemma_partition_at_254();
    assert(partition_terms(346, 15) == 214728004540147910);
    lemma_partition_at_246();
    assert(partition_terms(346, 16) == 214558707817756356);
    lemma_partition_at_229();
    assert(partition_terms(346, 17) == 214602840752640611);
    lemma_partition_at_220();
    assert(partition_terms(346, 18) == 214624089031649978);
    lemma_partition_at_201();
    assert(partition_terms(346, 19) == 214619760667991331);
    lemma_partition_at_191();
    assert(partition_terms(346, 20) == 214617939966890679);
    lemma_partition_at_170();
    assert(partition_terms(346, 21) == 214618214735507809);
    lemma_partition_at_159();
    assert(partition_terms(346, 22) == 214618312398236364);
    lemma_partition_at_136();
    assert(partition_terms(346, 23) == 214618302382654684);
    lemma_partition_at_124();
    assert(partition_terms(346, 24) == 214618299540714184);
    lemma_partition_at_99();
    assert(partition_terms(346, 25) == 214618299709944059);
    lemma_partition_at_86();
    assert(partition_terms(346, 26) == 214618299744207021);
    lemma_partition_at_59();
    assert(partition_terms(346, 27) == 214618299743375201);
    lemma_partition_at_45();
    assert(partition_terms(346, 28) == 214618299743286067);
    lemma_partition_at_16();
    assert(partition_terms(346, 29) == 214618299743286298);
    lemma_partition_at_1();
    assert(partition_terms(346, 30) == 214618299743286299);
}

/// The recurrence at 347.
proof fn lemma_partition_at_347()
    ensures
        partition_number(347) == 229272286871217150,
{
    lemma_pentagonal_values();
    lemma_partition_terms_stable(347, 30, 347);
    assert(partition_terms(347, 0) == 0);
    lemma_partition_at_346();
    assert(partition_terms(347, 1) == 214618299743286299);
    lemma_partition_at_345();
    assert(partition_terms(347, 2) == 415500856030969458);
    lemma_partition_at_342();
    assert(partition_terms(347, 3) == 250863376865208414);
    lemma_partition_at_340();
    assert(partition_terms(347, 4) == 106745440337334582);
    lemma_partition_at_335();
    assert(partition_terms(347, 5) == 209896906659069907);
    lemma_partition_at_332();
    assert(partition_terms(347, 6) == 294197722295295026);
    lemma_partition_at_325();
    assert(partition_terms(347, 7) == 241735678066466385);
    lemma_partition_at_321();
    assert(partition_terms(347, 8) == 201816112539466394);
    lemma_partition_at_312();
    assert(partition_terms(347, 9) == 223274208576819285);
    lemma_partition_at_307();
    assert(partition_terms(347, 10) == 238417161315676479);
    lemma_partition_at_296();
    assert(partition_terms(347, 11) == 231451311171480648);
    lemma_partition_at_290();
    assert(partition_terms(347, 12) == 226917058044579762);
    lemma_partition_at_277();
    assert(partition_terms(347, 13) == 228679336477637031);
    lemma_partition_at_270();
    assert(partition_terms(347, 14) == 229729533967568148);
    lemma_partition_at_255();
    assert(partition_terms(347, 15) == 229390679703319468);
    lemma_partition_at_247();
    assert(partition_terms(347, 16) == 229207705813465442);
    lemma_partition_at_230();
    assert(partition_terms(347, 17) == 229255532053211362);
    lemma_partition_at_221();
    assert(partition_terms(347, 18) == 229278593924385211);
    lemma_partition_at_202();
    assert(partition_terms(347, 19) == 229273879357499128);
    lemma_partition_at_192();
    assert(partition_terms(347, 20) == 229271892080642765);
    lemma_partition_at_171();
    assert(partition_terms(347, 21) == 229272193465444813);
    lemma_partition_at_160();
    assert(partition_terms(347, 22) == 229272300903604279);
    lemma_partition_at_137();
    assert(partition_terms(347, 23) == 229272289805959263);
    lemma_partition_at_125();
    assert(partition_terms(347, 24) == 229272286642831911);
    lemma_partition_at_100();
    assert(partition_terms(347, 25) == 229272286833401203);
    lemma_partition_at_87();
    assert(partition_terms(347, 26) == 229272286872288876);
    lemma_partition_at_60();
    assert(partition_terms(347, 27) == 229272286871322409);
    lemma_partition_at_46();
    assert(partition_terms(347, 28) == 229272286871216851);
    lemma_partition_at_17();
    assert(partition_terms(347, 29) == 229272286871217148);
    lemma_partition_at_2();
    assert(partition_terms(347, 30) == 229272286871217150);
}

/// The recurrence at 348.
proof fn lemma_partition_at_348()
    ensures
        partition_number(348) == 244904537455382406,
{
    lemma_pentagonal_values();
    lemma_partition_terms_stable(348, 30, 348);
    assert(partition_terms(348, 0) == 0);
    lemma_partition_at_347();
    assert(partition_terms(348, 1) == 229272286871217150);
    lemma_partition_at_346();
    assert(partition_terms(348, 2) == 443890586614503449);
    lemma_partition_at_343();
    assert(partition_terms(348, 3) == 267947026804080696);
    lemma_partition_at_341();
    assert(partition_terms(348, 4) == 113903429424504666);
    lemma_partition_at_336();
    assert(partition_terms(348, 5) == 224211289849797438);
    lemma_partition_at_333();
    assert(partition_terms(348, 6) == 314386724830347061);
    lemma_partition_at_326();
    assert(partition_terms(348, 7) == 258230122717472772);
    lemma_partition_at_322();
    assert(partition_terms(348, 8) == 215482044681518076);
    lemma_partition_at_313();
    assert(partition_terms(348, 9) == 238482051337005413);
    lemma_partition_at_308();
    assert(partition_terms(348, 10) == 254721837872835076);
    lemma_partition_at_297();
    assert(partition_terms(348, 11) == 247242272794324492);
    lemma_partition_at_291();
    assert(partition_terms(348, 12) == 242370234737852408);
    lemma_partition_at_278();
    assert(partition_terms(348, 13) == 244266798841443992);
    lemma_partition_at_271();
    assert(partition_terms(348, 14) == 245398037345382598);
    lemma_partition_at_256();
    assert(partition_terms(348, 15) == 245032287778511816);
    lemma_partition_at_248();
    assert(partition_terms(348, 16) == 244834561261830144);
    lemma_partition_at_231();
    assert(partition_terms(348, 17) == 244886381313668856);
    lemma_partition_at_222();
    assert(partition_terms(348, 18) == 244911407187428967);
    lemma_partition_at_203();
    assert(partition_terms(348, 19) == 244906272982140994);
    lemma_partition_at_193();
    assert(partition_terms(348, 20) == 244904104355035525);
    lemma_partition_at_172();
    assert(partition_terms(348, 21) == 244904434850535138);
    lemma_partition_at_161();
    assert(partition_terms(348, 22) == 244904553009603565);
    lemma_partition_at_138();
    assert(partition_terms(348, 23) == 244904540717261734);
    lemma_partition_at_126();
    assert(partition_terms(348, 24) == 244904537198039042);
    lemma_partition_at_101();
    assert(partition_terms(348, 25) == 244904537412520168);
    lemma_partition_at_88();
    assert(partition_terms(348, 26) == 244904537456628277);
    lemma_partition_at_61();
    assert(partition_terms(348, 27) == 244904537455506772);
    lemma_partition_at_47();
    assert(partition_terms(348, 28) == 244904537455382018);
    lemma_partition_at_18();
    assert(partition_terms(348, 29) == 244904537455382403);
    lemma_partition_at_3();
    assert(partition_terms(348, 30) == 244904537455382406);
}

/// The recurrence at 349.
proof fn lemma_partition_at_349()
    ensures
        partition_number(349) == 261578907351144125,
{
    lemma_pentagonal_values();
    lemma_partition_terms_stable(349, 30, 349);
    assert(partition_terms(349, 0) == 0);
    lemma_partition_at_348();
    assert(partition_terms(349, 1) == 244904537455382406);
    lemma_partition_at_347();
    assert(partition_terms(349, 2) == 474176824326599556);
    lemma_partition_at_344();
    assert(partition_terms(349, 3) == 286168177274306576);
    lemma_partition_at_342();
    assert(partition_terms(349, 4) == 121530698108545532);
    lemma_partition_at_337();
    assert(partition_terms(349, 5) == 239480189654659504);
    lemma_partition_at_334();
    assert(partition_terms(349, 6) == 335930299846862264);
    lemma_partition_at_327();
    assert(partition_terms(349, 7) == 275824950007195720);
    lemma_partition_at_323();
    assert(partition_terms(349, 8) == 230052591463617692);
    lemma_partition_at_314();
    assert(partition_terms(349, 9) == 254702697614448182);
    lemma_partition_at_309();
    assert(partition_terms(349, 10) == 272116877747595477);
    lemma_partition_at_298();
    assert(partition_terms(349, 11) == 264086629362652437);
    lemma_partition_at_292();
    assert(partition_terms(349, 12) == 258852258292898765);
    lemma_partition_at_279();
    assert(partition_terms(349, 13) == 260893084145473840);
    lemma_partition_at_272();
    assert(partition_terms(349, 14) == 262111458495318173);
    lemma_partition_at_257();
    assert(partition_terms(349, 15) == 261716734818662816);
    lemma_partition_at_249();
    assert(partition_terms(349, 16) == 261503097898842191);
    lemma_partition_at_232();
    assert(partition_terms(349, 17) == 261559236047513138);
    lemma_partition_at_223();
    assert(partition_terms(349, 18) == 261586388456438753);
    lemma_partition_at_204();
    assert(partition_terms(349, 19) == 261580798368121258);
    lemma_partition_at_194();
    assert(partition_terms(349, 20) == 261578432345379413);
    lemma_partition_at_173();
    assert(partition_terms(349, 21) == 261578794672239308);
    lemma_partition_at_162();
    assert(partition_terms(349, 22) == 261578924586143945);
    lemma_partition_at_139();
    assert(partition_terms(349, 23) == 261578910975194050);
    lemma_partition_at_127();
    assert(partition_terms(349, 24) == 261578907061329755);
    lemma_partition_at_102();
    assert(partition_terms(349, 25) == 261578907302595134);
    lemma_partition_at_89();
    assert(partition_terms(349, 26) == 261578907352591059);
    lemma_partition_at_62();
    assert(partition_terms(349, 27) == 261578907351290903);
    lemma_partition_at_48();
    assert(partition_terms(349, 28) == 261578907351143630);
    lemma_partition_at_19();
    assert(partition_terms(349, 29) == 261578907351144120);
    lemma_partition_at_4();
    assert(partition_terms(349, 30) == 261578907351144125);
}

/// The recurrence at 350.
proof fn lemma_partition_at_350()
    ensures
        partition_number(350) == 279363328483702152,
{
    lemma_pentagonal_values();
    lemma_partition_terms_stable(350, 30, 350);
    assert(partition_terms(350, 0) == 0);
    lemma_partition_at_349();
    assert(partition_terms(350, 1) == 261578907351144125);
    lemma_partition_at_348();
    assert(partition_terms(350, 2) == 506483444806526531);
    lemma_partition_at_345();
    assert(partition_terms(350, 3) == 305600888518843372);
    lemma_partition_at_343();
    assert(partition_terms(350, 4) == 129657328708420619);
    lemma_partition_at_338();
    assert(partition_terms(350, 5) == 255765846542216974);
    lemma_partition_at_335();
    assert(partition_terms(350, 6) == 358917312863952299);
    lemma_partition_at_328();
    assert(partition_terms(350, 7) == 294591938254837749);
    lemma_partition_at_324();
    assert(partition_terms(350, 8) == 245586294619599874);
    lemma_partition_at_315();
    assert(partition_terms(350, 9) == 272002102253166200);
    lemma_partition_at_310();
    assert(partition_terms(350, 10) == 290673590552766564);
    lemma_partition_at_299();
    assert(partition_terms(350, 11) == 282053094277301539);
    lemma_partition_at_293();
    assert(partition_terms(350, 12) == 276430101585350934);
    lemma_partition_at_280();
    assert(partition_terms(350, 13) == 278625887897033450);
    lemma_partition_at_273();
    assert(partition_terms(350, 14) == 279937939697849665);
    lemma_partition_at_258();
    assert(partition_terms(350, 15) == 279512006613440309);
    lemma_partition_at_250();
    assert(partition_terms(350, 16) == 279281213059075628);
    lemma_partition_at_233();
    assert(partition_terms(350, 17) == 279342019194513957);
    lemma_partition_at_224();
    assert(partition_terms(350, 18) == 279371473744455707);
    lemma_partition_at_205();
    assert(partition_terms(350, 19) == 279365388490596447);
    lemma_partition_at_195();
    assert(partition_terms(350, 20) == 279362807650383474);
    lemma_partition_at_174();
    assert(partition_terms(350, 21) == 279363204775458224);
    lemma_partition_at_163();
    assert(partition_terms(350, 22) == 279363347574454154);
    lemma_partition_at_140();
    assert(partition_terms(350, 23) == 279363332508576019);
    lemma_partition_at_128();
    assert(partition_terms(350, 24) == 279363328157497419);
    lemma_partition_at_103();
    assert(partition_terms(350, 25) == 279363328428746369);
    lemma_partition_at_90();
    assert(partition_terms(350, 26) == 279363328485380542);
    lemma_partition_at_63();
    assert(partition_terms(350, 27) == 279363328483875043);
    lemma_partition_at_49();
    assert(partition_terms(350, 28) == 279363328483701518);
    lemma_partition_at_20();
    assert(partition_terms(350, 29) == 279363328483702145);
    lemma_partition_at_5();
    assert(partition_terms(350, 30) == 279363328483702152);
}

/// The recurrence at 351.
proof fn lemma_partition_at_351()
    ensures
        partition_number(351) == 298330063062758076,
{
    lemma_pentagonal_values();
    lemma_partition_terms_stable(351, 30, 351);
    assert(partition_terms(351, 0) == 0);
    lemma_partition_at_350();
    assert(partition_terms(351, 1) == 279363328483702152);
    lemma_partition_at_349();
    assert(partition_terms(351, 2) == 540942235834846277);
    lemma_partition_at_346();
    assert(partition_terms(351, 3) == 326323936091559978);
    lemma_partition_at_344();
    assert(partition_terms(351, 4) == 138315289039266998);
    lemma_partition_at_339();
    assert(partition_terms(351, 5) == 273134469662568518);
    lemma_partition_at_336();
    assert(partition_terms(351, 6) == 383442330087861290);
    lemma_partition_at_329();
    assert(partition_terms(351, 7) == 314607444141787440);
    lemma_partition_at_325();
    assert(partition_terms(351, 8) == 262145399912958799);
    lemma_partition_at_316();
    assert(partition_terms(351, 9) == 290450420253954802);
    lemma_partition_at_311();
    assert(partition_terms(351, 10) == 310467847016531747);
    lemma_partition_at_300();
    assert(partition_terms(351, 11) == 301214764079808145);
    lemma_partition_at_294();
    assert(partition_terms(351, 12) == 295175000197712630);
    lemma_partition_at_281();
    assert(partition_terms(351, 13) == 297537219343050341);
    lemma_partition_at_274();
    assert(partition_terms(351, 14) == 298949968908223791);
    lemma_partition_at_259();
    assert(partition_terms(351, 15) == 298490423157775116);
    lemma_partition_at_251();
    assert(partition_terms(351, 16) == 298241131706606557);
    lemma_partition_at_234();
    assert(partition_terms(351, 17) == 298306983292576832);
    lemma_partition_at_225();
    assert(partition_terms(351, 18) == 298338929683272989);
    lemma_partition_at_206();
    assert(partition_terms(351, 19) == 298332306695564949);
    lemma_partition_at_196();
    assert(partition_terms(351, 20) == 298329492124577358);
    lemma_partition_at_175();
    assert(partition_terms(351, 21) == 298329927282275188);
    lemma_partition_at_164();
    assert(partition_terms(351, 22) == 298330084201750483);
    lemma_partition_at_141();
    assert(partition_terms(351, 23) == 298330067531061275);
    lemma_partition_at_129();
    assert(partition_terms(351, 24) == 298330062695789405);
    lemma_partition_at_104();
    assert(partition_terms(351, 25) == 298330063000590770);
    lemma_partition_at_91();
    assert(partition_terms(351, 26) == 298330063064703129);
    lemma_partition_at_64();
    assert(partition_terms(351, 27) == 298330063062961499);
    lemma_partition_at_50();
    assert(partition_terms(351, 28) == 298330063062757273);
    lemma_partition_at_21();
    assert(partition_terms(351, 29) == 298330063062758065);
    lemma_partition_at_6();
    assert(partition_terms(351, 30) == 298330063062758076);
}

/// The recurrence at 352.
proof fn lemma_partition_at_352()
    ensures
        partition_number(352) == 318555973788329084,
{
    lemma_pentagonal_values();
    lemma_partition_terms_stable(352, 30, 352);
    assert(partition_terms(352, 0) == 0);
    lemma_partition_at_351();
    assert(partition_terms(352, 1) == 298330063062758076);
    lemma_partition_at_350();
    assert(partition_terms(352, 2) == 577693391546460228);
    lemma_partition_at_347();
    assert(partition_terms(352, 3) == 348421104675243078);
    lemma_partition_at_345();
    assert(partition_terms(352, 4) == 147538548387559919);
    lemma_partition_at_340();
    assert(partition_terms(352, 5) == 291656484915433751);
    lemma_partition_at_337();
    assert(partition_terms(352, 6) == 409605976461547723);
    lemma_partition_at_330();
    assert(partition_terms(352, 7) == 335952688599697384);
    lemma_partition_at_326();
    assert(partition_terms(352, 8) == 279796086486823095);
    lemma_partition_at_317();
    assert(partition_terms(352, 9) == 310122268476666059);
    lemma_partition_at_312();
    assert(partition_terms(352, 10) == 331580364514018950);
    lemma_partition_at_301();
    assert(partition_terms(352, 11) == 321649392121615449);
    lemma_partition_at_295();
    assert(partition_terms(352, 12) == 315162717994536361);
    lemma_partition_at_282();
    assert(partition_terms(352, 13) == 317703670584582059);
    lemma_partition_at_275();
    assert(partition_terms(352, 14) == 319224651077433234);
    lemma_partition_at_260();
    assert(partition_terms(352, 15) == 318728909142672388);
    lemma_partition_at_252();
    assert(partition_terms(352, 16) == 318459676441419809);
    lemma_partition_at_235();
    assert(partition_terms(352, 17) == 318530980626934728);
    lemma_partition_at_226();
    assert(partition_terms(352, 18) == 318565623753257247);
    lemma_partition_at_207();
    assert(partition_terms(352, 19) == 318558416911550757);
    lemma_partition_at_197();
    assert(partition_terms(352, 20) == 318555348081672227);
    lemma_partition_at_176();
    assert(partition_terms(352, 21) == 318555824797529517);
    lemma_partition_at_165();
    assert(partition_terms(352, 22) == 318555997187329772);
    lemma_partition_at_142();
    assert(partition_terms(352, 23) == 318555978747036452);
    lemma_partition_at_130();
    assert(partition_terms(352, 24) == 318555973375721052);
    lemma_partition_at_105();
    assert(partition_terms(352, 25) == 318555973718046761);
    lemma_partition_at_92();
    assert(partition_terms(352, 26) == 318555973790580568);
    lemma_partition_at_65();
    assert(partition_terms(352, 27) == 318555973788568010);
    lemma_partition_at_51();
    assert(partition_terms(352, 28) == 318555973788328067);
    lemma_partition_at_22();
    assert(partition_terms(352, 29) == 318555973788329069);
    lemma_partition_at_7();
    assert(partition_terms(352, 30) == 318555973788329084);
}

/// The recurrence at 353.
proof fn lemma_partition_at_353()
    ensures
        partition_number(353) == 340122810048577428,
{
    lemma_pentagonal_values();
    lemma_partition_terms_stable(353, 30, 353);
    assert(partition_terms(353, 0) == 0);
    lemma_partition_at_352();
    assert(partition_terms(353, 1) == 318555973788329084);
    lemma_partition_at_351();
    assert(partition_terms(353, 2) == 616886036851087160);
    lemma_partition_at_348();
    assert(partition_terms(353, 3) == 371981499395704754);
    lemma_partition_at_346();
    assert(partition_terms(353, 4) == 157363199652418455);
    lemma_partition_at_341();
    assert(partition_terms(353, 5) == 311406797031994485);
    lemma_partition_at_338();
    assert(partition_terms(353, 6) == 437515314865790840);
    lemma_partition_at_331();
    assert(partition_terms(353, 7) == 358714059563124225);
    lemma_partition_at_327();
    assert(partition_terms(353, 8) == 298608709723457681);
    lemma_partition_at_318();
    assert(partition_terms(353, 9) == 331097003074924335);
    lemma_partition_at_313();
    assert(partition_terms(353, 10) == 354097009730411672);
    lemma_partition_at_302();
    assert(partition_terms(353, 11) == 343439678497862833);
    lemma_partition_at_296();
    assert(partition_terms(353, 12) == 336473828353667002);
    lemma_partition_at_283();
    assert(partition_terms(353, 13) == 339206701537214537);
    lemma_partition_at_276();
    assert(partition_terms(353, 14) == 340843995506551708);
    lemma_partition_at_261();
    assert(partition_terms(353, 15) == 340309280443643099);
    lemma_partition_at_253();
    assert(partition_terms(353, 16) == 340018553485726987);
    lemma_partition_at_236();
    assert(partition_terms(353, 17) == 340095749378390499);
    lemma_partition_at_227();
    assert(partition_terms(353, 18) == 340133310511973069);
    lemma_partition_at_208();
    assert(partition_terms(353, 19) == 340125469855746932);
    lemma_partition_at_198();
    assert(partition_terms(353, 20) == 340122124489763234);
    lemma_partition_at_177();
    assert(partition_terms(353, 21) == 340122646605594429);
    lemma_partition_at_166();
    assert(partition_terms(353, 22) == 340122835940417008);
    lemma_partition_at_143();
    assert(partition_terms(353, 23) == 340122815549434251);
    lemma_partition_at_131();
    assert(partition_terms(353, 24) == 340122809584894747);
    lemma_partition_at_106();
    assert(partition_terms(353, 25) == 340122809969171083);
    lemma_partition_at_93();
    assert(partition_terms(353, 26) == 340122810051181260);
    lemma_partition_at_66();
    assert(partition_terms(353, 27) == 340122810048857740);
    lemma_partition_at_52();
    assert(partition_terms(353, 28) == 340122810048576151);
    lemma_partition_at_23();
    assert(partition_terms(353, 29) == 340122810048577406);
    lemma_partition_at_8();
    assert(partition_terms(353, 30) == 340122810048577428);
}

/// The recurrence at 354.
proof fn lemma_partition_at_354()
    ensures
        partition_number(354) == 363117512048110005,
{
    lemma_pentagonal_values();
    lemma_partition_terms_stable(354, 30, 354);
    assert(partition_terms(354, 0) == 0);
    lemma_partition_at_353();
    assert(partition_terms(354, 1) == 340122810048577428);
    lemma_partition_at_352();
    assert(partition_terms(354, 2) == 658678783836906512);
    lemma_partition_at_349();
    assert(partition_terms(354, 3) == 397099876485762387);
    lemma_partition_at_347();
    assert(partition_terms(354, 4) == 167827589614545237);
    lemma_partition_at_342();
    assert(partition_terms(354, 5) == 332465068780306281);
    lemma_partition_at_339();
    assert(partition_terms(354, 6) == 467284249403607801);
    lemma_partition_at_332();
    assert(partition_terms(354, 7) == 382983433767382682);
    lemma_partition_at_328();
    assert(partition_terms(354, 8) == 318658059158268132);
    lemma_partition_at_319();
    assert(partition_terms(354, 9) == 353459014027708962);
    lemma_partition_at_314();
    assert(partition_terms(354, 10) == 378109120178539452);
    lemma_partition_at_303();
    assert(partition_terms(354, 11) == 366673578100717348);
    lemma_partition_at_297();
    assert(partition_terms(354, 12) == 359194013022206764);
    lemma_partition_at_284();
    assert(partition_terms(354, 13) == 362132942816136319);
    lemma_partition_at_277();
    assert(partition_terms(354, 14) == 363895221249193588);
    lemma_partition_at_262();
    assert(partition_terms(354, 15) == 363318548574246420);
    lemma_partition_at_254();
    assert(partition_terms(354, 16) == 363004656582939755);
    lemma_partition_at_237();
    assert(partition_terms(354, 17) == 363088217686865626);
    lemma_partition_at_228();
    assert(partition_terms(354, 18) == 363128935750492988);
    lemma_partition_at_209();
    assert(partition_terms(354, 19) == 363120407169190613);
    lemma_partition_at_199();
    assert(partition_terms(354, 20) == 363116761096758488);
    lemma_partition_at_178();
    assert(partition_terms(354, 21) == 363117332798364143);
    lemma_partition_at_167();
    assert(partition_terms(354, 22) == 363117540688784245);
    lemma_partition_at_144();
    assert(partition_terms(354, 23) == 363117518148129800);
    lemma_partition_at_132();
    assert(partition_terms(354, 24) == 363117511527298911);
    lemma_partition_at_107();
    assert(partition_terms(354, 25) == 363117511958448300);
    lemma_partition_at_94();
    assert(partition_terms(354, 26) == 363117512051118020);
    lemma_partition_at_67();
    assert(partition_terms(354, 27) == 363117512048438331);
    lemma_partition_at_53();
    assert(partition_terms(354, 28) == 363117512048108400);
    lemma_partition_at_24();
    assert(partition_terms(354, 29) == 363117512048109975);
    lemma_partition_at_9();
    assert(partition_terms(354, 30) == 363117512048110005);
}

/// The recurrence at 355.
proof fn lemma_partition_at_355()
    ensures
        partition_number(355) == 387632532919029223,
{
    lemma_pentagonal_values();
    lemma_partition_terms_stable(355, 30, 355);
    assert(partition_terms(355, 0) == 0);
    lemma_partition_at_354();
    assert(partition_terms(355, 1) == 363117512048110005);
    lemma_partition_at_353();
    assert(partition_terms(355, 2) == 703240322096687433);
    lemma_partition_at_350();
    assert(partition_terms(355, 3) == 423876993612985281);
    lemma_partition_at_348();
    assert(partition_terms(355, 4) == 178972456157602875);
    lemma_partition_at_343();
    assert(partition_terms(355, 5) == 354916015968025628);
    lemma_partition_at_340();
    assert(partition_terms(355, 6) == 499033952495899460);
    lemma_partition_at_333();
    assert(partition_terms(355, 7) == 408858517515349837);
    lemma_partition_at_329();
    assert(partition_terms(355, 8) == 340023631569275987);
    lemma_partition_at_320();
    assert(partition_terms(355, 9) == 377298037346024064);
    lemma_partition_at_315();
    assert(partition_terms(355, 10) == 403713844979590390);
    lemma_partition_at_304();
    assert(partition_terms(355, 11) == 391444626960360925);
    lemma_partition_at_298();
    assert(partition_terms(355, 12) == 383414378575417885);
    lemma_partition_at_285();
    assert(partition_terms(355, 13) == 386574516442566882);
    lemma_partition_at_278();
    assert(partition_terms(355, 14) == 388471080546158466);
    lemma_partition_at_263();
    assert(partition_terms(355, 15) == 387849243129648851);
    lemma_partition_at_255();
    assert(partition_terms(355, 16) == 387510388865400171);
    lemma_partition_at_238();
    assert(partition_terms(355, 17) == 387600825705068988);
    lemma_partition_at_229();
    assert(partition_terms(355, 18) == 387644958639953243);
    lemma_partition_at_210();
    assert(partition_terms(355, 19) == 387635683537377888);
    lemma_partition_at_200();
    assert(partition_terms(355, 20) == 387631710538348500);
    lemma_partition_at_179();
    assert(partition_terms(355, 21) == 387632336385101620);
    lemma_partition_at_168();
    assert(partition_terms(355, 22) == 387632564589834371);
    lemma_partition_at_145();
    assert(partition_terms(355, 23) == 387632539680976362);
    lemma_partition_at_133();
    assert(partition_terms(355, 24) == 387632532334346850);
    lemma_partition_at_108();
    assert(partition_terms(355, 25) == 387632532817849694);
    lemma_partition_at_95();
    assert(partition_terms(355, 26) == 387632532922501113);
    lemma_partition_at_68();
    assert(partition_terms(355, 27) == 387632532919413378);
    lemma_partition_at_54();
    assert(partition_terms(355, 28) == 387632532919027223);
    lemma_partition_at_25();
    assert(partition_terms(355, 29) == 387632532919029181);
    lemma_partition_at_10();
    assert(partition_terms(355, 30) == 387632532919029223);
}

/// The recurrence at 356.
proof fn lemma_partition_at_356()
    ensures
        partition_number(356) == 413766180933342362,
{
    lemma_pentagonal_values();
    lemma_partition_terms_stable(356, 30, 356);
    assert(partition_terms(356, 0) == 0);
    lemma_partition_at_355();
    assert(partition_terms(356, 1) == 387632532919029223);
    lemma_partition_at_354();
    assert(partition_terms(356, 2) == 750750044967139228);
    lemma_partition_at_351();
    assert(partition_terms(356, 3) == 452419981904381152);
    lemma_partition_at_349();
    assert(partition_terms(356, 4) == 190841074553237027);
    lemma_partition_at_344();
    assert(partition_terms(356, 5) == 378849721605530007);
    lemma_partition_at_341();
    assert(partition_terms(356, 6) == 532893318985106037);
    lemma_partition_at_334();
    assert(partition_terms(356, 7) == 436443208792903277);
    lemma_partition_at_330();
    assert(partition_terms(356, 8) == 362789920931052938);
    lemma_partition_at_321();
    assert(partition_terms(356, 9) == 402709486458052929);
    lemma_partition_at_316();
    assert(partition_terms(356, 10) == 431014506799048932);
    lemma_partition_at_305();
    assert(partition_terms(356, 11) == 417852288903991228);
    lemma_partition_at_299();
    assert(partition_terms(356, 12) == 409231792628526203);
    lemma_partition_at_286();
    assert(partition_terms(356, 13) == 412629376640512976);
    lemma_partition_at_279();
    assert(partition_terms(356, 14) == 414670202493088051);
    lemma_partition_at_264();
    assert(partition_terms(356, 15) == 413999754370027881);
    lemma_partition_at_256();
    assert(partition_terms(356, 16) == 413634004803157099);
    lemma_partition_at_239();
    assert(partition_terms(356, 17) == 413731867736860684);
    lemma_partition_at_230();
    assert(partition_terms(356, 18) == 413779693976606604);
    lemma_partition_at_211();
    assert(partition_terms(356, 19) == 413769608910720837);
    lemma_partition_at_201();
    assert(partition_terms(356, 20) == 413765280547062190);
    lemma_partition_at_180();
    assert(partition_terms(356, 21) == 413765965504453126);
    lemma_partition_at_169();
    assert(partition_terms(356, 22) == 413766215943378241);
    lemma_partition_at_146();
    assert(partition_terms(356, 23) == 413766188426325642);
    lemma_partition_at_134();
    assert(partition_terms(356, 24) == 413766180277284947);
    lemma_partition_at_109();
    assert(partition_terms(356, 25) == 413766180819231187);
    lemma_partition_at_96();
    assert(partition_terms(356, 26) == 413766180937345491);
    lemma_partition_at_69();
    assert(partition_terms(356, 27) == 413766180933791146);
    lemma_partition_at_55();
    assert(partition_terms(356, 28) == 413766180933339870);
    lemma_partition_at_26();
    assert(partition_terms(356, 29) == 413766180933342306);
    lemma_partition_at_11();
    assert(partition_terms(356, 30) == 413766180933342362);
}

/// The recurrence at 357.
proof fn lemma_partition_at_357()
    ensures
        partition_number(357) == 441622981929358437,
{
    lemma_pentagonal_values();
    lemma_partition_terms_stable(357, 30, 357);
    assert(partition_terms(357, 0) == 0);
    lemma_partition_at_356();
    assert(partition_terms(357, 1) == 413766180933342362);
    lemma_partition_at_355();
    assert(partition_terms(357, 2) == 801398713852371585);
    lemma_partition_at_352();
    assert(partition_terms(357, 3) == 482842740064042501);
    lemma_partition_at_350();
    assert(partition_terms(357, 4) == 203479411580340349);
    lemma_partition_at_345();
    assert(partition_terms(357, 5) == 404361967868023508);
    lemma_partition_at_342();
    assert(partition_terms(357, 6) == 568999447033784552);
    lemma_partition_at_335();
    assert(partition_terms(357, 7) == 465847980712049227);
    lemma_partition_at_331();
    assert(partition_terms(357, 8) == 387046725409382612);
    lemma_partition_at_322();
    assert(partition_terms(357, 9) == 429794803445337308);
    lemma_partition_at_317();
    assert(partition_terms(357, 10) == 460120985435180272);
    lemma_partition_at_306();
    assert(partition_terms(357, 11) == 446002322769900267);
    lemma_partition_at_300();
    assert(partition_terms(357, 12) == 436749239833176665);
    lemma_partition_at_287();
    assert(partition_terms(357, 13) == 440401670669247718);
    lemma_partition_at_280();
    assert(partition_terms(357, 14) == 442597456980930234);
    lemma_partition_at_265();
    assert(partition_terms(357, 15) == 441874696027239862);
    lemma_partition_at_257();
    assert(partition_terms(357, 16) == 441479972350584505);
    lemma_partition_at_240();
    assert(partition_terms(357, 17) == 441585854597307238);
    lemma_partition_at_231();
    assert(partition_terms(357, 18) == 441637674649145950);
    lemma_partition_at_212();
    assert(partition_terms(357, 19) == 441626710941940691);
    lemma_partition_at_202();
    assert(partition_terms(357, 20) == 441621996375054608);
    lemma_partition_at_181();
    assert(partition_terms(357, 21) == 441622745849466389);
    lemma_partition_at_170();
    assert(partition_terms(357, 22) == 441623020618083519);
    lemma_partition_at_147();
    assert(partition_terms(357, 23) == 441622990229411541);
    lemma_partition_at_135();
    assert(partition_terms(357, 24) == 441622981193575465);
    lemma_partition_at_110();
    assert(partition_terms(357, 25) == 441622981800739211);
    lemma_partition_at_97();
    assert(partition_terms(357, 26) == 441622981933970141);
    lemma_partition_at_70();
    assert(partition_terms(357, 27) == 441622981929882173);
    lemma_partition_at_56();
    assert(partition_terms(357, 28) == 441622981929355350);
    lemma_partition_at_27();
    assert(partition_terms(357, 29) == 441622981929358360);
    lemma_partition_at_12();
    assert(partition_terms(357, 30) == 441622981929358437);
}

/// The recurrence at 358.
proof fn lemma_partition_at_358()
    ensures
        partition_number(358) == 471314064268398780,
{
    lemma_pentagonal_values();
    lemma_partition_terms_stable(358, 30, 358);
    assert(partition_terms(358, 0) == 0);
    lemma_partition_at_357();
    assert(partition_terms(358, 1) == 441622981929358437);
    lemma_partition_at_356();
    assert(partition_terms(358, 2) == 855389162862700799);
    lemma_partition_at_353();
    assert(partition_terms(358, 3) == 515266352814123371);
    lemma_partition_at_351();
    assert(partition_terms(358, 4) == 216936289751365295);
    lemma_partition_at_346();
    assert(partition_terms(358, 5) == 431554589494651594);
    lemma_partition_at_343();
    assert(partition_terms(358, 6) == 607498149305074347);
    lemma_partition_at_336();
    assert(partition_terms(358, 7) == 497190288879781575);
    lemma_partition_at_332();
    assert(partition_terms(358, 8) == 412889473243556456);
    lemma_partition_at_323();
    assert(partition_terms(358, 9) == 458661831787134484);
    lemma_partition_at_318();
    assert(partition_terms(358, 10) == 491150125138601138);
    lemma_partition_at_307();
    assert(partition_terms(358, 11) == 476007172399743944);
    lemma_partition_at_301();
    assert(partition_terms(358, 12) == 466076200007340443);
    lemma_partition_at_288();
    assert(partition_terms(358, 13) == 470002122168829865);
    lemma_partition_at_281();
    assert(partition_terms(358, 14) == 472364341314167576);
    lemma_partition_at_266();
    assert(partition_terms(358, 15) == 471585290684605409);
    lemma_partition_at_258();
    assert(partition_terms(358, 16) == 471159357600196053);
    lemma_partition_at_241();
    assert(partition_terms(358, 17) == 471273898484749091);
    lemma_partition_at_232();
    assert(partition_terms(358, 18) == 471330036633420038);
    lemma_partition_at_213();
    assert(partition_terms(358, 19) == 471318119952183760);
    lemma_partition_at_203();
    assert(partition_terms(358, 20) == 471312985746895787);
    lemma_partition_at_182();
    assert(partition_terms(358, 21) == 471313805623804110);
    lemma_partition_at_171();
    assert(partition_terms(358, 22) == 471314107008606158);
    lemma_partition_at_148();
    assert(partition_terms(358, 23) == 471314073459186661);
    lemma_partition_at_136();
    assert(partition_terms(358, 24) == 471314063443604981);
    lemma_partition_at_111();
    assert(partition_terms(358, 25) == 471314064123508184);
    lemma_partition_at_98();
    assert(partition_terms(358, 26) == 471314064273706320);
    lemma_partition_at_71();
    assert(partition_terms(358, 27) == 471314064269009115);
    lemma_partition_at_57();
    assert(partition_terms(358, 28) == 471314064268394961);
    lemma_partition_at_28();
    assert(partition_terms(358, 29) == 471314064268398679);
    lemma_partition_at_13();
    assert(partition_terms(358, 30) == 471314064268398780);
}

/// The recurrence at 359.
proof fn lemma_partition_at_359()
    ensures
        partition_number(359) == 502957566506000020,
{
    lemma_pentagonal_values();
    lemma_partition_terms_stable(359, 30, 359);
    assert(partition_terms(359, 0) == 0);
    lemma_partition_at_358();
    assert(partition_terms(359, 1) == 471314064268398780);
    lemma_partition_at_357();
    assert(partition_terms(359, 2) == 912937046197757217);
    lemma_partition_at_354();
    assert(partition_terms(359, 3) == 549819534149647212);
    lemma_partition_at_352();
    assert(partition_terms(359, 4) == 231263560361318128);
    lemma_partition_at_347();
    assert(partition_terms(359, 5) == 460535847232535278);
    lemma_partition_at_344();
    assert(partition_terms(359, 6) == 648544494284828258);
    lemma_partition_at_337();
    assert(partition_terms(359, 7) == 530595002738714286);
    lemma_partition_at_333();
    assert(partition_terms(359, 8) == 440419567758164663);
    lemma_partition_at_324();
    assert(partition_terms(359, 9) == 489425211393402538);
    lemma_partition_at_319();
    assert(partition_terms(359, 10) == 524226166262843368);
    lemma_partition_at_308();
    assert(partition_terms(359, 11) == 507986379727013705);
    lemma_partition_at_302();
    assert(partition_terms(359, 12) == 497329048494464866);
    lemma_partition_at_289();
    assert(partition_terms(359, 13) == 501548437023051961);
    lemma_partition_at_282();
    assert(partition_terms(359, 14) == 504089389613097659);
    lemma_partition_at_267();
    assert(partition_terms(359, 15) == 503249777882730845);
    lemma_partition_at_259();
    assert(partition_terms(359, 16) == 502790232132282170);
    lemma_partition_at_242();
    assert(partition_terms(359, 17) == 502914120575359429);
    lemma_partition_at_233();
    assert(partition_terms(359, 18) == 502974926710797758);
    lemma_partition_at_214();
    assert(partition_terms(359, 19) == 502961976614871863);
    lemma_partition_at_204();
    assert(partition_terms(359, 20) == 502956386526554368);
    lemma_partition_at_183();
    assert(partition_terms(359, 21) == 502957283211371895);
    lemma_partition_at_172();
    assert(partition_terms(359, 22) == 502957613706871508);
    lemma_partition_at_149();
    assert(partition_terms(359, 23) == 502957576679516308);
    lemma_partition_at_137();
    assert(partition_terms(359, 24) == 502957565581871292);
    lemma_partition_at_112();
    assert(partition_terms(359, 25) == 502957566342873448);
    lemma_partition_at_99();
    assert(partition_terms(359, 26) == 502957566512103323);
    lemma_partition_at_72();
    assert(partition_terms(359, 27) == 502957566506710540);
    lemma_partition_at_58();
    assert(partition_terms(359, 28) == 502957566505995320);
    lemma_partition_at_29();
    assert(partition_terms(359, 29) == 502957566505999885);
    lemma_partition_at_14();
    assert(partition_terms(359, 30) == 502957566506000020);
}

/// The recurrence at 360.
proof fn lemma_partition_at_360()
    ensures
        partition_number(360) == 536679070310691121,
{
    lemma_pentagonal_values();
    lemma_partition_terms_stable(360, 30, 360);
    assert(partition_terms(360, 0) == 0);
    lemma_partition_at_359();
    assert(partition_terms(360, 1) == 502957566506000020);
    lemma_partition_at_358();
    assert(partition_terms(360, 2) == 974271630774398800);
    lemma_partition_at_355();
    assert(partition_terms(360, 3) == 586639097855369577);
    lemma_partition_at_353();
    assert(partition_terms(360, 4) == 246516287806792149);
    lemma_partition_at_348();
    assert(partition_terms(360, 5) == 491420825262174555);
    lemma_partition_at_345();
    assert(partition_terms(360, 6) == 692303381549857714);
    lemma_partition_at_338();
    assert(partition_terms(360, 7) == 566194863716061359);
    lemma_partition_at_334();
    assert(partition_terms(360, 8) == 469744753523858599);
    lemma_partition_at_325();
    assert(partition_terms(360, 9) == 522206797752687240);
    lemma_partition_at_320();
    assert(partition_terms(360, 10) == 559481203529435317);
    lemma_partition_at_309();
    assert(partition_terms(360, 11) == 542067023396288022);
    lemma_partition_at_303();
    assert(partition_terms(360, 12) == 530631481318465918);
    lemma_partition_at_290();
    assert(partition_terms(360, 13) == 535165734445366804);
    lemma_partition_at_283();
    assert(partition_terms(360, 14) == 537898607628914339);
    lemma_partition_at_268();
    assert(partition_terms(360, 15) == 536993847520597979);
    lemma_partition_at_260();
    assert(partition_terms(360, 16) == 536498105585837133);
    lemma_partition_at_243();
    assert(partition_terms(360, 17) == 536632083845182021);
    lemma_partition_at_234();
    assert(partition_terms(360, 18) == 536697935431152296);
    lemma_partition_at_215();
    assert(partition_terms(360, 19) == 536683864885453009);
    lemma_partition_at_205();
    assert(partition_terms(360, 20) == 536677779631593749);
    lemma_partition_at_184();
    assert(partition_terms(360, 21) == 536678760094474179);
    lemma_partition_at_173();
    assert(partition_terms(360, 22) == 536679122421334074);
    lemma_partition_at_150();
    assert(partition_terms(360, 23) == 536679081568098761);
    lemma_partition_at_138();
    assert(partition_terms(360, 24) == 536679069275756930);
    lemma_partition_at_113();
    assert(partition_terms(360, 25) == 536679070127133558);
    lemma_partition_at_100();
    assert(partition_terms(360, 26) == 536679070317702850);
    lemma_partition_at_73();
    assert(partition_terms(360, 27) == 536679070311517161);
    lemma_partition_at_59();
    assert(partition_terms(360, 28) == 536679070310685341);
    lemma_partition_at_30();
    assert(partition_terms(360, 29) == 536679070310690945);
    lemma_partition_at_15();
    assert(partition_terms(360, 30) == 536679070310691121);
}

/// The recurrence at 361.
proof fn lemma_partition_at_361()
    ensures
        partition_number(361) == 572612058898037559,
{
    lemma_pentagonal_values();
    lemma_partition_terms_stable(361, 30, 361);
    assert(partition_terms(361, 0) == 0);
    lemma_partition_at_360();
    assert(partition_terms(361, 1) == 536679070310691121);
    lemma_partition_at_359();
    assert(partition_terms(361, 2) == 1039636636816691141);
    lemma_partition_at_356();
    assert(partition_terms(361, 3) == 625870455883348779);
    lemma_partition_at_354();
    assert(partition_terms(361, 4) == 262752943835238774);
    lemma_partition_at_349();
    assert(partition_terms(361, 5) == 524331851186382899);
    lemma_partition_at_346();
    assert(partition_terms(361, 6) == 738950150929669198);
    lemma_partition_at_339();
    assert(partition_terms(361, 7) == 604130970306367678);
    lemma_partition_at_335();
    assert(partition_terms(361, 8) == 500979503984632353);
    lemma_partition_at_326();
    assert(partition_terms(361, 9) == 557136106097506642);
    lemma_partition_at_321();
    assert(partition_terms(361, 10) == 597055671624506633);
    lemma_partition_at_310();
    assert(partition_terms(361, 11) == 578384183324906269);
    lemma_partition_at_304();
    assert(partition_terms(361, 12) == 566114965305676804);
    lemma_partition_at_291();
    assert(partition_terms(361, 13) == 570987003362148888);
    lemma_partition_at_284();
    assert(partition_terms(361, 14) == 573925933156078443);
    lemma_partition_at_269();
    assert(partition_terms(361, 15) == 572951098786133818);
    lemma_partition_at_261();
    assert(partition_terms(361, 16) == 572416383723225209);
    lemma_partition_at_244();
    assert(partition_terms(361, 17) == 572561251415721654);
    lemma_partition_at_235();
    assert(partition_terms(361, 18) == 572632555601236573);
    lemma_partition_at_216();
    assert(partition_terms(361, 19) == 572617270449988092);
    lemma_partition_at_206();
    assert(partition_terms(361, 20) == 572610647462280052);
    lemma_partition_at_185();
    assert(partition_terms(361, 21) == 572611719286054389);
    lemma_partition_at_174();
    assert(partition_terms(361, 22) == 572612116411129139);
    lemma_partition_at_151();
    assert(partition_terms(361, 23) == 572612071350504557);
    lemma_partition_at_139();
    assert(partition_terms(361, 24) == 572612057739554662);
    lemma_partition_at_114();
    assert(partition_terms(361, 25) == 572612058691605327);
    lemma_partition_at_101();
    assert(partition_terms(361, 26) == 572612058906086453);
    lemma_partition_at_74();
    assert(partition_terms(361, 27) == 572612058898996953);
    lemma_partition_at_60();
    assert(partition_terms(361, 28) == 572612058898030486);
    lemma_partition_at_31();
    assert(partition_terms(361, 29) == 572612058898037328);
    lemma_partition_at_16();
    assert(partition_terms(361, 30) == 572612058898037559);
}

/// The recurrence at 362.
proof fn lemma_partition_at_362()
    ensures
        partition_number(362) == 610898403751884101,
{
    lemma_pentagonal_values();
    lemma_partition_terms_stable(362, 30, 362);
    assert(partition_terms(362, 0) == 0);
    lemma_partition_at_361();
    assert(partition_terms(362, 1) == 572612058898037559);
    lemma_partition_at_360();
    assert(partition_terms(362, 2) == 1109291129208728680);
    lemma_partition_at_357();
    assert(partition_terms(362, 3) == 667668147279370243);
    lemma_partition_at_355();
    assert(partition_terms(362, 4) == 280035614360341020);
    lemma_partition_at_350();
    assert(partition_terms(362, 5) == 559398942844043172);
    lemma_partition_at_347();
    assert(partition_terms(362, 6) == 788671229715260322);
    lemma_partition_at_340();
    assert(partition_terms(362, 7) == 644553293187386490);
    lemma_partition_at_336();
    assert(partition_terms(362, 8) == 534245432762093718);
    lemma_partition_at_327();
    assert(partition_terms(362, 9) == 594350782601760262);
    lemma_partition_at_322();
    assert(partition_terms(362, 10) == 637098860637714958);
    lemma_partition_at_311();
    assert(partition_terms(362, 11) == 617081433875138013);
    lemma_partition_at_305();
    assert(partition_terms(362, 12) == 603919215980080309);
    lemma_partition_at_292();
    assert(partition_terms(362, 13) == 609153587049833981);
    lemma_partition_at_285();
    assert(partition_terms(362, 14) == 612313724916982978);
    lemma_partition_at_270();
    assert(partition_terms(362, 15) == 611263527427051861);
    lemma_partition_at_262();
    assert(partition_terms(362, 16) == 610686854752104693);
    lemma_partition_at_245();
    assert(partition_terms(362, 17) == 610843473164632639);
    lemma_partition_at_236();
    assert(partition_terms(362, 18) == 610920669057296151);
    lemma_partition_at_217();
    assert(partition_terms(362, 19) == 610904067459188237);
    lemma_partition_at_207();
    assert(partition_terms(362, 20) == 610896860617481747);
    lemma_partition_at_186();
    assert(partition_terms(362, 21) == 610898032050174120);
    lemma_partition_at_175();
    assert(partition_terms(362, 22) == 610898467207871950);
    lemma_partition_at_152();
    assert(partition_terms(362, 23) == 610898417521583529);
    lemma_partition_at_140();
    assert(partition_terms(362, 24) == 610898402455705394);
    lemma_partition_at_115();
    assert(partition_terms(362, 25) == 610898403519849845);
    lemma_partition_at_102();
    assert(partition_terms(362, 26) == 610898403761115224);
    lemma_partition_at_75();
    assert(partition_terms(362, 27) == 610898403752996960);
    lemma_partition_at_61();
    assert(partition_terms(362, 28) == 610898403751875455);
    lemma_partition_at_32();
    assert(partition_terms(362, 29) == 610898403751883804);
    lemma_partition_at_17();
    assert(partition_terms(362, 30) == 610898403751884101);
}

/// The recurrence at 363.
proof fn lemma_partition_at_363()
    ensures
        partition_number(363) == 651688879997206959,
{
    lemma_pentagonal_values();
    lemma_partition_terms_stable(363, 30, 363);
    assert(partition_terms(363, 0) == 0);
    lemma_partition_at_362();
    assert(partition_terms(363, 1) == 610898403751884101);
    lemma_partition_at_361();
    assert(partition_terms(363, 2) == 1183510462649921660);
    lemma_partition_at_358();
    assert(partition_terms(363, 3) == 712196398381522880);
    lemma_partition_at_356();
    assert(partition_terms(363, 4) == 298430217448180518);
    lemma_partition_at_351();
    assert(partition_terms(363, 5) == 596760280510938594);
    lemma_partition_at_348();
    assert(partition_terms(363, 6) == 841664817966321000);
    lemma_partition_at_341();
    assert(partition_terms(363, 7) == 687621220586744970);
    lemma_partition_at_337();
    assert(partition_terms(363, 8) == 569671729040630998);
    lemma_partition_at_328();
    assert(partition_terms(363, 9) == 633997103649745548);
    lemma_partition_at_323();
    assert(partition_terms(363, 10) == 679769462193323576);
    lemma_partition_at_312();
    assert(partition_terms(363, 11) == 658311366155970685);
    lemma_partition_at_306();
    assert(partition_terms(363, 12) == 644192703490690680);
    lemma_partition_at_293();
    assert(partition_terms(363, 13) == 649815696182641285);
    lemma_partition_at_286();
    assert(partition_terms(363, 14) == 653213280194628058);
    lemma_partition_at_271();
    assert(partition_terms(363, 15) == 652082041690689452);
    lemma_partition_at_263();
    assert(partition_terms(363, 16) == 651460204274179837);
    lemma_partition_at_246();
    assert(partition_terms(363, 17) == 651629500996571391);
    lemma_partition_at_237();
    assert(partition_terms(363, 18) == 651713062100497262);
    lemma_partition_at_218();
    assert(partition_terms(363, 19) == 651695033917980591);
    lemma_partition_at_208();
    assert(partition_terms(363, 20) == 651687193261754454);
    lemma_partition_at_187();
    assert(partition_terms(363, 21) == 651688473272796722);
    lemma_partition_at_176();
    assert(partition_terms(363, 22) == 651688949988654012);
    lemma_partition_at_153();
    assert(partition_terms(363, 23) == 651688895218317688);
    lemma_partition_at_141();
    assert(partition_terms(363, 24) == 651688878547628480);
    lemma_partition_at_116();
    assert(partition_terms(363, 25) == 651688879736536728);
    lemma_partition_at_103();
    assert(partition_terms(363, 26) == 651688880007785678);
    lemma_partition_at_76();
    assert(partition_terms(363, 27) == 651688879998496587);
    lemma_partition_at_62();
    assert(partition_terms(363, 28) == 651688879997196431);
    lemma_partition_at_33();
    assert(partition_terms(363, 29) == 651688879997206574);
    lemma_partition_at_18();
    assert(partition_terms(363, 30) == 651688879997206959);
}

/// The recurrence at 364.
proof fn lemma_partition_at_364()
    ensures
        partition_number(364) == 695143713458946040,
{
    lemma_pentagonal_values();
    lemma_partition_terms_stable(364, 30, 364);
    assert(partition_terms(364, 0) == 0);
    lemma_partition_at_363();
    assert(partition_terms(364, 1) == 651688879997206959);
    lemma_partition_at_362();
    assert(partition_terms(364, 2) == 1262587283749091060);
    lemma_partition_at_359();
    assert(partition_terms(364, 3) == 759629717243091040);
    lemma_partition_at_357();
    assert(partition_terms(364, 4) == 318006735313732603);
    lemma_partition_at_352();
    assert(partition_terms(364, 5) == 636562709102061687);
    lemma_partition_at_349();
    assert(partition_terms(364, 6) == 898141616453205812);
    lemma_partition_at_342();
    assert(partition_terms(364, 7) == 733504137287444768);
    lemma_partition_at_338();
    assert(partition_terms(364, 8) == 607395619453648413);
    lemma_partition_at_329();
    assert(partition_terms(364, 9) == 676230505399722263);
    lemma_partition_at_324();
    assert(partition_terms(364, 10) == 725236149034960138);
    lemma_partition_at_313();
    assert(partition_terms(364, 11) == 702236142379472801);
    lemma_partition_at_307();
    assert(partition_terms(364, 12) == 687093189640615607);
    lemma_partition_at_294();
    assert(partition_terms(364, 13) == 693132953522711122);
    lemma_partition_at_287();
    assert(partition_terms(364, 14) == 696785384358782175);
    lemma_partition_at_272();
    assert(partition_terms(364, 15) == 695567010008937842);
    lemma_partition_at_264();
    assert(partition_terms(364, 16) == 694896561885877672);
    lemma_partition_at_247();
    assert(partition_terms(364, 17) == 695079535775731698);
    lemma_partition_at_238();
    assert(partition_terms(364, 18) == 695169972615400515);
    lemma_partition_at_219();
    assert(partition_terms(364, 19) == 695150398759239370);
    lemma_partition_at_209();
    assert(partition_terms(364, 20) == 695141870177936995);
    lemma_partition_at_188();
    assert(partition_terms(364, 21) == 695143268519682566);
    lemma_partition_at_177();
    assert(partition_terms(364, 22) == 695143790635513761);
    lemma_partition_at_154();
    assert(partition_terms(364, 23) == 695143730278840481);
    lemma_partition_at_142();
    assert(partition_terms(364, 24) == 695143711838547161);
    lemma_partition_at_117();
    assert(partition_terms(364, 25) == 695143713166257237);
    lemma_partition_at_104();
    assert(partition_terms(364, 26) == 695143713471058602);
    lemma_partition_at_77();
    assert(partition_terms(364, 27) == 695143713460438739);
    lemma_partition_at_63();
    assert(partition_terms(364, 28) == 695143713458933240);
    lemma_partition_at_34();
    assert(partition_terms(364, 29) == 695143713458945550);
    lemma_partition_at_19();
    assert(partition_terms(364, 30) == 695143713458946040);
}

/// The recurrence at 365.
proof fn lemma_partition_at_365()
    ensures
        partition_number(365) == 741433159884081684,
{
    lemma_pentagonal_values();
    lemma_partition_terms_stable(365, 30, 365);
    assert(partition_terms(365, 0) == 0);
    lemma_partition_at_364();
    assert(partition_terms(365, 1) == 695143713458946040);
    lemma_partition_at_363();
    assert(partition_terms(365, 2) == 1346832593456152999);
    lemma_partition_at_360();
    assert(partition_terms(365, 3) == 810153523145461878);
    lemma_partition_at_358();
    assert(partition_terms(365, 4) == 338839458877063098);
    lemma_partition_at_353();
    assert(partition_terms(365, 5) == 678962268925640526);
    lemma_partition_at_350();
    assert(partition_terms(365, 6) == 958325597409342678);
    lemma_partition_at_343();
    assert(partition_terms(365, 7) == 782382037598919925);
    lemma_partition_at_339();
    assert(partition_terms(365, 8) == 647562856975618405);
    lemma_partition_at_330();
    assert(partition_terms(365, 9) == 721216144837468744);
    lemma_partition_at_325();
    assert(partition_terms(365, 10) == 773678189066297385);
    lemma_partition_at_314();
    assert(partition_terms(365, 11) == 749028082915466895);
    lemma_partition_at_308();
    assert(partition_terms(365, 12) == 732788296379637232);
    lemma_partition_at_295();
    assert(partition_terms(365, 13) == 739274970506716320);
    lemma_partition_at_288();
    assert(partition_terms(365, 14) == 743200892668205742);
    lemma_partition_at_273();
    assert(partition_terms(365, 15) == 741888840867389527);
    lemma_partition_at_265();
    assert(partition_terms(365, 16) == 741166079913699155);
    lemma_partition_at_248();
    assert(partition_terms(365, 17) == 741363806430380827);
    lemma_partition_at_239();
    assert(partition_terms(365, 18) == 741461669364084412);
    lemma_partition_at_220();
    assert(partition_terms(365, 19) == 741440421085075045);
    lemma_partition_at_210();
    assert(partition_terms(365, 20) == 741431145982499690);
    lemma_partition_at_189();
    assert(partition_terms(365, 21) == 741432673256099315);
    lemma_partition_at_178();
    assert(partition_terms(365, 22) == 741433244957704970);
    lemma_partition_at_155();
    assert(partition_terms(365, 23) == 741433178464522873);
    lemma_partition_at_143();
    assert(partition_terms(365, 24) == 741433158073540116);
    lemma_partition_at_118();
    assert(partition_terms(365, 25) == 741433159555614259);
    lemma_partition_at_105();
    assert(partition_terms(365, 26) == 741433159897939968);
    lemma_partition_at_78();
    assert(partition_terms(365, 27) == 741433159885807804);
    lemma_partition_at_64();
    assert(partition_terms(365, 28) == 741433159884066174);
    lemma_partition_at_35();
    assert(partition_terms(365, 29) == 741433159884081057);
    lemma_partition_at_20();
    assert(partition_terms(365, 30) == 741433159884081684);
}

/// The recurrence at 366.
proof fn lemma_partition_at_366()
    ensures
        partition_number(366) == 790738119649411319,
{
    lemma_pentagonal_values();
    lemma_partition_terms_stable(366, 30, 366);
    assert(partition_terms(366, 0) == 0);
    lemma_partition_at_365();
    assert(partition_terms(366, 1) == 741433159884081684);
    lemma_partition_at_364();
    assert(partition_terms(366, 2) == 1436576873343027724);
    lemma_partition_at_361();
    assert(partition_terms(366, 3) == 863964814444990165);
    lemma_partition_at_359();
    assert(partition_terms(366, 4) == 361007247938990145);
    lemma_partition_at_354();
    assert(partition_terms(366, 5) == 724124759987100150);
    lemma_partition_at_351();
    assert(partition_terms(366, 6) == 1022454823049858226);
    lemma_partition_at_344();
    assert(partition_terms(366, 7) == 834446175997565246);
    lemma_partition_at_340();
    assert(partition_terms(366, 8) == 690328239469691414);
    lemma_partition_at_331();
    assert(partition_terms(366, 9) == 769129494772358029);
    lemma_partition_at_326();
    assert(partition_terms(366, 10) == 825286096885232318);
    lemma_partition_at_315();
    assert(partition_terms(366, 11) == 798870289251665992);
    lemma_partition_at_309();
    assert(partition_terms(366, 12) == 781456109118518697);
    lemma_partition_at_296();
    assert(partition_terms(366, 13) == 788421959262714528);
    lemma_partition_at_289();
    assert(partition_terms(366, 14) == 792641347791301623);
    lemma_partition_at_274();
    assert(partition_terms(366, 15) == 791228598226128173);
    lemma_partition_at_266();
    assert(partition_terms(366, 16) == 790449547596566006);
    lemma_partition_at_249();
    assert(partition_terms(366, 17) == 790663184516386631);
    lemma_partition_at_240();
    assert(partition_terms(366, 18) == 790769066763109364);
    lemma_partition_at_221();
    assert(partition_terms(366, 19) == 790746004891935515);
    lemma_partition_at_211();
    assert(partition_terms(366, 20) == 790735919826049748);
    lemma_partition_at_190();
    assert(partition_terms(366, 21) == 790737587553453841);
    lemma_partition_at_179();
    assert(partition_terms(366, 22) == 790738213400206961);
    lemma_partition_at_156();
    assert(partition_terms(366, 23) == 790738140167963202);
    lemma_partition_at_144();
    assert(partition_terms(366, 24) == 790738117627308757);
    lemma_partition_at_119();
    assert(partition_terms(366, 25) == 790738119280977422);
    lemma_partition_at_106();
    assert(partition_terms(366, 26) == 790738119665253758);
    lemma_partition_at_79();
    assert(partition_terms(366, 27) == 790738119651405108);
    lemma_partition_at_65();
    assert(partition_terms(366, 28) == 790738119649392550);
    lemma_partition_at_36();
    assert(partition_terms(366, 29) == 790738119649410527);
    lemma_partition_at_21();
    assert(partition_terms(366, 30) == 790738119649411319);
}

/// The recurrence at 367.
proof fn lemma_partition_at_367()
    ensures
        partition_number(367) == 843250788562528427,
{
    lemma_pentagonal_values();
    lemma_partition_terms_stable(367, 30, 367);
    assert(partition_terms(367, 0) == 0);
    lemma_partition_at_366();
    assert(partition_terms(367, 1) == 790738119649411319);
    lemma_partition_at_365();
    assert(partition_terms(367, 2) == 1532171279533493003);
    lemma_partition_at_362();
    assert(partition_terms(367, 3) == 921272875781608902);
    lemma_partition_at_360();
    assert(partition_terms(367, 4) == 384593805470917781);
    lemma_partition_at_355();
    assert(partition_terms(367, 5) == 772226338389947004);
    lemma_partition_at_352();
    assert(partition_terms(367, 6) == 1090782312178276088);
    lemma_partition_at_345();
    assert(partition_terms(367, 7) == 889899755890592929);
    lemma_partition_at_341();
    assert(partition_terms(367, 8) == 735856158511016899);
    lemma_partition_at_332();
    assert(partition_terms(367, 9) == 820156974147242018);
    lemma_partition_at_327();
    assert(partition_terms(367, 10) == 880262323986908562);
    lemma_partition_at_316();
    assert(partition_terms(367, 11) == 851957303645912559);
    lemma_partition_at_310();
    assert(partition_terms(367, 12) == 833285815346312195);
    lemma_partition_at_297();
    assert(partition_terms(367, 13) == 840765380424822779);
    lemma_partition_at_290();
    assert(partition_terms(367, 14) == 845299633551723665);
    lemma_partition_at_275();
    assert(partition_terms(367, 15) == 843778653058872490);
    lemma_partition_at_267();
    assert(partition_terms(367, 16) == 842939041328505676);
    lemma_partition_at_250();
    assert(partition_terms(367, 17) == 843169834882870357);
    lemma_partition_at_241();
    assert(partition_terms(367, 18) == 843284375767423395);
    lemma_partition_at_222();
    assert(partition_terms(367, 19) == 843259349893663284);
    lemma_partition_at_212();
    assert(partition_terms(367, 20) == 843248386186458025);
    lemma_partition_at_191();
    assert(partition_terms(367, 21) == 843250206887558677);
    lemma_partition_at_180();
    assert(partition_terms(367, 22) == 843250891844949613);
    lemma_partition_at_157();
    assert(partition_terms(367, 23) == 843250811213984844);
    lemma_partition_at_145();
    assert(partition_terms(367, 24) == 843250786305126835);
    lemma_partition_at_120();
    assert(partition_terms(367, 25) == 843250788149476395);
    lemma_partition_at_107();
    assert(partition_terms(367, 26) == 843250788580625784);
    lemma_partition_at_80();
    assert(partition_terms(367, 27) == 843250788564829308);
    lemma_partition_at_66();
    assert(partition_terms(367, 28) == 843250788562505788);
    lemma_partition_at_37();
    assert(partition_terms(367, 29) == 843250788562527425);
    lemma_partition_at_22();
    assert(partition_terms(367, 30) == 843250788562528427);
}

/// The recurrence at 368.
proof fn lemma_partition_at_368()
    ensures
        partition_number(368) == 899175348396088349,
{
    lemma_pentagonal_values();
    lemma_partition_terms_stable(368, 30, 368);
    assert(partition_terms(368, 0) == 0);
    lemma_partition_at_367();
    assert(partition_terms(368, 1) == 843250788562528427);
    lemma_partition_at_366();
    assert(partition_terms(368, 2) == 1633988908211939746);
    lemma_partition_at_363();
    assert(partition_terms(368, 3) == 982300028214732787);
    lemma_partition_at_361();
    assert(partition_terms(368, 4) == 409687969316695228);
    lemma_partition_at_356();
    assert(partition_terms(368, 5) == 823454150250037590);
    lemma_partition_at_353();
    assert(partition_terms(368, 6) == 1163576960298615018);
    lemma_partition_at_346();
    assert(partition_terms(368, 7) == 948958660555328719);
    lemma_partition_at_342();
    assert(partition_terms(368, 8) == 784321181389567675);
    lemma_partition_at_333();
    assert(partition_terms(368, 9) == 874496616370117298);
    lemma_partition_at_328();
    assert(partition_terms(368, 10) == 938821990979231848);
    lemma_partition_at_317();
    assert(partition_terms(368, 11) == 908495808989388884);
    lemma_partition_at_311();
    assert(partition_terms(368, 12) == 888478382226811939);
    lemma_partition_at_298();
    assert(partition_terms(368, 13) == 896508630611754979);
    lemma_partition_at_291();
    assert(partition_terms(368, 14) == 901380668668227063);
    lemma_partition_at_276();
    assert(partition_terms(368, 15) == 899743374698889892);
    lemma_partition_at_268();
    assert(partition_terms(368, 16) == 898838614590573532);
    lemma_partition_at_251();
    assert(partition_terms(368, 17) == 899087906041742091);
    lemma_partition_at_242();
    assert(partition_terms(368, 18) == 899211794484819350);
    lemma_partition_at_223();
    assert(partition_terms(368, 19) == 899184642075893735);
    lemma_partition_at_213();
    assert(partition_terms(368, 20) == 899172725394657457);
    lemma_partition_at_192();
    assert(partition_terms(368, 21) == 899174712671513820);
    lemma_partition_at_181();
    assert(partition_terms(368, 22) == 899175462145925601);
    lemma_partition_at_158();
    assert(partition_terms(368, 23) == 899175373394146799);
    lemma_partition_at_146();
    assert(partition_terms(368, 24) == 899175345877094200);
    lemma_partition_at_121();
    assert(partition_terms(368, 25) == 899175347933242251);
    lemma_partition_at_108();
    assert(partition_terms(368, 26) == 899175348416745095);
    lemma_partition_at_81();
    assert(partition_terms(368, 27) == 899175348398740768);
    lemma_partition_at_67();
    assert(partition_terms(368, 28) == 899175348396061079);
    lemma_partition_at_38();
    assert(partition_terms(368, 29) == 899175348396087094);
    lemma_partition_at_23();
    assert(partition_terms(368, 30) == 899175348396088349);
}

/// The recurrence at 369.
proof fn lemma_partition_at_369()
    ensures
        partition_number(369) == 958728697912338045,
{
    lemma_pentagonal_values();
    lemma_partition_terms_stable(369, 30, 369);
    assert(partition_terms(369, 0) == 0);
    lemma_partition_at_368();
    assert(partition_terms(369, 1) == 899175348396088349);
    lemma_partition_at_367();
    assert(partition_terms(369, 2) == 1742426136958616776);
    lemma_partition_at_364();
    assert(partition_terms(369, 3) == 1047282423499670736);
    lemma_partition_at_362();
    assert(partition_terms(369, 4) == 436384019747786635);
    lemma_partition_at_357();
    assert(partition_terms(369, 5) == 878007001677145072);
    lemma_partition_at_354();
    assert(partition_terms(369, 6) == 1241124513725255077);
    lemma_partition_at_347();
    assert(partition_terms(369, 7) == 1011852226854037927);
    lemma_partition_at_343();
    assert(partition_terms(369, 8) == 835908667043615174);
    lemma_partition_at_334();
    assert(partition_terms(369, 9) == 932358777235817934);
    lemma_partition_at_329();
    assert(partition_terms(369, 10) == 1001193663181891784);
    lemma_partition_at_318();
    assert(partition_terms(369, 11) == 968705369830425130);
    lemma_partition_at_312();
    assert(partition_terms(369, 12) == 947247273793072239);
    lemma_partition_at_299();
    assert(partition_terms(369, 13) == 955867770068537264);
    lemma_partition_at_292();
    assert(partition_terms(369, 14) == 961102141138290936);
    lemma_partition_at_277();
    assert(partition_terms(369, 15) == 959339862705233667);
    lemma_partition_at_269();
    assert(partition_terms(369, 16) == 958365028335289042);
    lemma_partition_at_252();
    assert(partition_terms(369, 17) == 958634261036541621);
    lemma_partition_at_243();
    assert(partition_terms(369, 18) == 958768239295886509);
    lemma_partition_at_224();
    assert(partition_terms(369, 19) == 958738784745944759);
    lemma_partition_at_214();
    assert(partition_terms(369, 20) == 958725834650018864);
    lemma_partition_at_193();
    assert(partition_terms(369, 21) == 958728003277124333);
    lemma_partition_at_182();
    assert(partition_terms(369, 22) == 958728823154032656);
    lemma_partition_at_159();
    assert(partition_terms(369, 23) == 958728725491304101);
    lemma_partition_at_147();
    assert(partition_terms(369, 24) == 958728695102632123);
    lemma_partition_at_122();
    assert(partition_terms(369, 25) == 958728697393953035);
    lemma_partition_at_109();
    assert(partition_terms(369, 26) == 958728697935899275);
    lemma_partition_at_82();
    assert(partition_terms(369, 27) == 958728697915393020);
    lemma_partition_at_68();
    assert(partition_terms(369, 28) == 958728697912305285);
    lemma_partition_at_39();
    assert(partition_terms(369, 29) == 958728697912336470);
    lemma_partition_at_24();
    assert(partition_terms(369, 30) == 958728697912338045);
}

/// The recurrence at 370.
proof fn lemma_partition_at_370()
    ensures
        partition_number(370) == 1022141228367345362,
{
    lemma_pentagonal_values();
    lemma_partition_terms_stable(370, 30, 370);
    assert(partition_terms(370, 0) == 0);
    lemma_partition_at_369();
    assert(partition_terms(370, 1) == 958728697912338045);
    lemma_partition_at_368();
    assert(partition_terms(370, 2) == 1857904046308426394);
    lemma_partition_at_365();
    assert(partition_terms(370, 3) == 1116470886424344710);
    lemma_partition_at_363();
    assert(partition_terms(370, 4) == 464782006427137751);
    lemma_partition_at_358();
    assert(partition_terms(370, 5) == 936096070695536531);
    lemma_partition_at_355();
    assert(partition_terms(370, 6) == 1323728603614565754);
    lemma_partition_at_348();
    assert(partition_terms(370, 7) == 1078824066159183348);
    lemma_partition_at_344();
    assert(partition_terms(370, 8) == 890815419106890368);
    lemma_partition_at_335();
    assert(partition_terms(370, 9) == 993966885428625693);
    lemma_partition_at_330();
    assert(partition_terms(370, 10) == 1067620173290476032);
    lemma_partition_at_319();
    assert(partition_terms(370, 11) == 1032819218421035202);
    lemma_partition_at_313();
    assert(partition_terms(370, 12) == 1009819211765547865);
    lemma_partition_at_300();
    assert(partition_terms(370, 13) == 1019072294702271467);
    lemma_partition_at_293();
    assert(partition_terms(370, 14) == 1024695287394222072);
    lemma_partition_at_278();
    assert(partition_terms(370, 15) == 1022798723290630488);
    lemma_partition_at_270();
    assert(partition_terms(370, 16) == 1021748525800699371);
    lemma_partition_at_253();
    assert(partition_terms(370, 17) == 1022039252758615483);
    lemma_partition_at_244();
    assert(partition_terms(370, 18) == 1022184120451111928);
    lemma_partition_at_225();
    assert(partition_terms(370, 19) == 1022152174060415771);
    lemma_partition_at_215();
    assert(partition_terms(370, 20) == 1022138103514716484);
    lemma_partition_at_194();
    assert(partition_terms(370, 21) == 1022140469537458329);
    lemma_partition_at_183();
    assert(partition_terms(370, 22) == 1022141366222275856);
    lemma_partition_at_160();
    assert(partition_terms(370, 23) == 1022141258784116390);
    lemma_partition_at_148();
    assert(partition_terms(370, 24) == 1022141225234696893);
    lemma_partition_at_123();
    assert(partition_terms(370, 25) == 1022141227787035134);
    lemma_partition_at_110();
    assert(partition_terms(370, 26) == 1022141228394198880);
    lemma_partition_at_83();
    assert(partition_terms(370, 27) == 1022141228370860411);
    lemma_partition_at_69();
    assert(partition_terms(370, 28) == 1022141228367306066);
    lemma_partition_at_40();
    assert(partition_terms(370, 29) == 1022141228367343404);
    lemma_partition_at_25();
    assert(partition_terms(370, 30) == 1022141228367345362);
}

/// The recurrence at 371.
proof fn lemma_partition_at_371()
    ensures
        partition_number(371) == 1089657644424399782,
{
    lemma_pentagonal_values();
    lemma_partition_terms_stable(371, 30, 371);
    assert(partition_terms(371, 0) == 0);
    lemma_partition_at_370();
    assert(partition_terms(371, 1) == 1022141228367345362);
    lemma_partition_at_369();
    assert(partition_terms(371, 2) == 1980869926279683407);
    lemma_partition_at_366();
    assert(partition_terms(371, 3) == 1190131806630272088);
    lemma_partition_at_364();
    assert(partition_terms(371, 4) == 494988093171326048);
    lemma_partition_at_359();
    assert(partition_terms(371, 5) == 997945659677326068);
    lemma_partition_at_356();
    assert(partition_terms(371, 6) == 1411711840610668430);
    lemma_partition_at_349();
    assert(partition_terms(371, 7) == 1150132933259524305);
    lemma_partition_at_345();
    assert(partition_terms(371, 8) == 949250376971841146);
    lemma_partition_at_336();
    assert(partition_terms(371, 9) == 1059558237397133918);
    lemma_partition_at_331();
    assert(partition_terms(371, 10) == 1138359492699800533);
    lemma_partition_at_320();
    assert(partition_terms(371, 11) == 1101085086923052456);
    lemma_partition_at_314();
    assert(partition_terms(371, 12) == 1076434980772221966);
    lemma_partition_at_301();
    assert(partition_terms(371, 13) == 1086365953164625467);
    lemma_partition_at_294();
    assert(partition_terms(371, 14) == 1092405717046720982);
    lemma_partition_at_279();
    assert(partition_terms(371, 15) == 1090364891194145907);
    lemma_partition_at_271();
    assert(partition_terms(371, 16) == 1089233652690207301);
    lemma_partition_at_254();
    assert(partition_terms(371, 17) == 1089547544681513966);
    lemma_partition_at_245();
    assert(partition_terms(371, 18) == 1089704163094041912);
    lemma_partition_at_226();
    assert(partition_terms(371, 19) == 1089669519967719393);
    lemma_partition_at_216();
    assert(partition_terms(371, 20) == 1089654234816470912);
    lemma_partition_at_195();
    assert(partition_terms(371, 21) == 1089656815656683885);
    lemma_partition_at_184();
    assert(partition_terms(371, 22) == 1089657796119564315);
    lemma_partition_at_161();
    assert(partition_terms(371, 23) == 1089657677960495888);
    lemma_partition_at_149();
    assert(partition_terms(371, 24) == 1089657640933140688);
    lemma_partition_at_124();
    assert(partition_terms(371, 25) == 1089657643775081188);
    lemma_partition_at_111();
    assert(partition_terms(371, 26) == 1089657644454984391);
    lemma_partition_at_84();
    assert(partition_terms(371, 27) == 1089657644428440731);
    lemma_partition_at_70();
    assert(partition_terms(371, 28) == 1089657644424352763);
    lemma_partition_at_41();
    assert(partition_terms(371, 29) == 1089657644424397346);
    lemma_partition_at_26();
    assert(partition_terms(371, 30) == 1089657644424399782);
}

/// The recurrence at 372.
proof fn lemma_partition_at_372()
    ensures
        partition_number(372) == 1161537834849962850,
{
    lemma_pentagonal_values();
    lemma_partition_terms_stable(372, 30, 372);
    assert(partition_terms(372, 0) == 0);
    lemma_partition_at_371();
    assert(partition_terms(372, 1) == 1089657644424399782);
    lemma_partition_at_370();
    assert(partition_terms(372, 2) == 2111798872791745144);
    lemma_partition_at_367();
    assert(partition_terms(372, 3) == 1268548084229216717);
    lemma_partition_at_365();
    assert(partition_terms(372, 4) == 527114924345135033);
    lemma_partition_at_360();
    assert(partition_terms(372, 5) == 1063793994655826154);
    lemma_partition_at_357();
    assert(partition_terms(372, 6) == 1505416976585184591);
    lemma_partition_at_350();
    assert(partition_terms(372, 7) == 1226053648101482439);
    lemma_partition_at_346();
    assert(partition_terms(372, 8) == 1011435348358196140);
    lemma_partition_at_337();
    assert(partition_terms(372, 9) == 1129384839904310112);
    lemma_partition_at_332();
    assert(partition_terms(372, 10) == 1213685655540535231);
    lemma_partition_at_321();
    assert(partition_terms(372, 11) == 1173766090013535240);
    lemma_partition_at_315();
    assert(partition_terms(372, 12) == 1147350282379968914);
    lemma_partition_at_302();
    assert(partition_terms(372, 13) == 1158007613612517753);
    lemma_partition_at_295();
    assert(partition_terms(372, 14) == 1164494287739596841);
    lemma_partition_at_280();
    assert(partition_terms(372, 15) == 1162298501427914325);
    lemma_partition_at_272();
    assert(partition_terms(372, 16) == 1161080127078069992);
    lemma_partition_at_255();
    assert(partition_terms(372, 17) == 1161418981342318672);
    lemma_partition_at_246();
    assert(partition_terms(372, 18) == 1161588278064710226);
    lemma_partition_at_227();
    assert(partition_terms(372, 19) == 1161550716931127656);
    lemma_partition_at_217();
    assert(partition_terms(372, 20) == 1161534115333019742);
    lemma_partition_at_196();
    assert(partition_terms(372, 21) == 1161536929904007333);
    lemma_partition_at_185();
    assert(partition_terms(372, 22) == 1161538001727781670);
    lemma_partition_at_162();
    assert(partition_terms(372, 23) == 1161537871813877033);
    lemma_partition_at_150();
    assert(partition_terms(372, 24) == 1161537830960641720);
    lemma_partition_at_125();
    assert(partition_terms(372, 25) == 1161537834123769072);
    lemma_partition_at_112();
    assert(partition_terms(372, 26) == 1161537834884771228);
    lemma_partition_at_85();
    assert(partition_terms(372, 27) == 1161537834854603871);
    lemma_partition_at_71();
    assert(partition_terms(372, 28) == 1161537834849906666);
    lemma_partition_at_42();
    assert(partition_terms(372, 29) == 1161537834849959840);
    lemma_partition_at_27();
    assert(partition_terms(372, 30) == 1161537834849962850);
}

/// The recurrence at 373.
proof fn lemma_partition_at_373()
    ensures
        partition_number(373) == 1238057794119125085,
{
    lemma_pentagonal_values();
    lemma_partition_terms_stable(373, 30, 373);
    assert(partition_terms(373, 0) == 0);
    lemma_partition_at_372();
    assert(partition_terms(373, 1) == 1161537834849962850);
    lemma_partition_at_371();
    assert(partition_terms(373, 2) == 2251195479274362632);
    lemma_partition_at_368();
    assert(partition_terms(373, 3) == 1352020130878274283);
    lemma_partition_at_366();
    assert(partition_terms(373, 4) == 561282011228862964);
    lemma_partition_at_361();
    assert(partition_terms(373, 5) == 1133894070126900523);
    lemma_partition_at_358();
    assert(partition_terms(373, 6) == 1605208134395299303);
    lemma_partition_at_351();
    assert(partition_terms(373, 7) == 1306878071332541227);
    lemma_partition_at_347();
    assert(partition_terms(373, 8) == 1077605784461324077);
    lemma_partition_at_338();
    assert(partition_terms(373, 9) == 1203714302295120432);
    lemma_partition_at_333();
    assert(partition_terms(373, 10) == 1293889737275670055);
    lemma_partition_at_322();
    assert(partition_terms(373, 11) == 1251141659239715359);
    lemma_partition_at_316();
    assert(partition_terms(373, 12) == 1222836638898719356);
    lemma_partition_at_303();
    assert(partition_terms(373, 13) == 1234272180976541460);
    lemma_partition_at_296();
    assert(partition_terms(373, 14) == 1241238031120737291);
    lemma_partition_at_281();
    assert(partition_terms(373, 15) == 1238875811975399580);
    lemma_partition_at_273();
    assert(partition_terms(373, 16) == 1237563760174583365);
    lemma_partition_at_256();
    assert(partition_terms(373, 17) == 1237929509741454147);
    lemma_partition_at_247();
    assert(partition_terms(373, 18) == 1238112483631308173);
    lemma_partition_at_228();
    assert(partition_terms(373, 19) == 1238071765567680811);
    lemma_partition_at_218();
    assert(partition_terms(373, 20) == 1238053737385164140);
    lemma_partition_at_197();
    assert(partition_terms(373, 21) == 1238056806215042670);
    lemma_partition_at_186();
    assert(partition_terms(373, 22) == 1238057977647735043);
    lemma_partition_at_163();
    assert(partition_terms(373, 23) == 1238057834848739113);
    lemma_partition_at_151();
    assert(partition_terms(373, 24) == 1238057789788114531);
    lemma_partition_at_126();
    assert(partition_terms(373, 25) == 1238057793307337223);
    lemma_partition_at_113();
    assert(partition_terms(373, 26) == 1238057794158713851);
    lemma_partition_at_86();
    assert(partition_terms(373, 27) == 1238057794124450889);
    lemma_partition_at_72();
    assert(partition_terms(373, 28) == 1238057794119058106);
    lemma_partition_at_43();
    assert(partition_terms(373, 29) == 1238057794119121367);
    lemma_partition_at_28();
    assert(partition_terms(373, 30) == 1238057794119125085);
}

/// The recurrence at 374.
proof fn lemma_partition_at_374()
    ensures
        partition_number(374) == 1319510599727473500,
{
    lemma_pentagonal_values();
    lemma_partition_terms_stable(374, 30, 374);
    assert(partition_terms(374, 0) == 0);
    lemma_partition_at_373();
    assert(partition_terms(374, 1) == 1238057794119125085);
    lemma_partition_at_372();
    assert(partition_terms(374, 2) == 2399595628969087935);
    lemma_partition_at_369();
    assert(partition_terms(374, 3) == 1440866931056749890);
    lemma_partition_at_367();
    assert(partition_terms(374, 4) == 597616142494221463);
    lemma_partition_at_362();
    assert(partition_terms(374, 5) == 1208514546246105564);
    lemma_partition_at_359();
    assert(partition_terms(374, 6) == 1711472112752105584);
    lemma_partition_at_352();
    assert(partition_terms(374, 7) == 1392916138963776500);
    lemma_partition_at_348();
    assert(partition_terms(374, 8) == 1148011601508394094);
    lemma_partition_at_339();
    assert(partition_terms(374, 9) == 1282830782131695614);
    lemma_partition_at_334();
    assert(partition_terms(374, 10) == 1379280892323898374);
    lemma_partition_at_323();
    assert(partition_terms(374, 11) == 1333508533780320346);
    lemma_partition_at_317();
    assert(partition_terms(374, 12) == 1303182351790477382);
    lemma_partition_at_304();
    assert(partition_terms(374, 13) == 1315451569809706847);
    lemma_partition_at_297();
    assert(partition_terms(374, 14) == 1322931134888217431);
    lemma_partition_at_282();
    assert(partition_terms(374, 15) == 1320390182298171733);
    lemma_partition_at_274();
    assert(partition_terms(374, 16) == 1318977432732998283);
    lemma_partition_at_257();
    assert(partition_terms(374, 17) == 1319372156409653640);
    lemma_partition_at_248();
    assert(partition_terms(374, 18) == 1319569882926335312);
    lemma_partition_at_229();
    assert(partition_terms(374, 19) == 1319525749991451057);
    lemma_partition_at_219();
    assert(partition_terms(374, 20) == 1319506176135289912);
    lemma_partition_at_198();
    assert(partition_terms(374, 21) == 1319509521501273610);
    lemma_partition_at_187();
    assert(partition_terms(374, 22) == 1319510801512315878);
    lemma_partition_at_164();
    assert(partition_terms(374, 23) == 1319510644592840583);
    lemma_partition_at_152();
    assert(partition_terms(374, 24) == 1319510594906552162);
    lemma_partition_at_127();
    assert(partition_terms(374, 25) == 1319510598820416457);
    lemma_partition_at_114();
    assert(partition_terms(374, 26) == 1319510599772467122);
    lemma_partition_at_87();
    assert(partition_terms(374, 27) == 1319510599733579449);
    lemma_partition_at_73();
    assert(partition_terms(374, 28) == 1319510599727393760);
    lemma_partition_at_44();
    assert(partition_terms(374, 29) == 1319510599727468935);
    lemma_partition_at_29();
    assert(partition_terms(374, 30) == 1319510599727473500);
}

/// The recurrence at 375.
proof fn lemma_partition_at_375()
    ensures
        partition_number(375) == 1406207446561484054,
{
    lemma_pentagonal_values();
    lemma_partition_terms_stable(375, 30, 375);
    assert(partition_terms(375, 0) == 0);
    lemma_partition_at_374();
    assert(partition_terms(375, 1) == 1319510599727473500);
    lemma_partition_at_373();
    assert(partition_terms(375, 2) == 2557568393846598585);
    lemma_partition_at_370();
    assert(partition_terms(375, 3) == 1535427165479253223);
    lemma_partition_at_368();
    assert(partition_terms(375, 4) == 636251817083164874);
    lemma_partition_at_363();
    assert(partition_terms(375, 5) == 1287940697080371833);
    lemma_partition_at_360();
    assert(partition_terms(375, 6) == 1824619767391062954);
    lemma_partition_at_353();
    assert(partition_terms(375, 7) == 1484496957342485526);
    lemma_partition_at_349();
    assert(partition_terms(375, 8) == 1222918049991341401);
    lemma_partition_at_340();
    assert(partition_terms(375, 9) == 1367035986519215233);
    lemma_partition_at_335();
    assert(partition_terms(375, 10) == 1470187452840950558);
    lemma_partition_at_324();
    assert(partition_terms(375, 11) == 1421181809205712683);
    lemma_partition_at_318();
    assert(partition_terms(375, 12) == 1388693515854246029);
    lemma_partition_at_305();
    assert(partition_terms(375, 13) == 1401855733749303733);
    lemma_partition_at_298();
    assert(partition_terms(375, 14) == 1409885982134246773);
    lemma_partition_at_283();
    assert(partition_terms(375, 15) == 1407153108950699238);
    lemma_partition_at_275();
    assert(partition_terms(375, 16) == 1405632128457848063);
    lemma_partition_at_258();
    assert(partition_terms(375, 17) == 1406058061542257419);
    lemma_partition_at_249();
    assert(partition_terms(375, 18) == 1406271698462078044);
    lemma_partition_at_230();
    assert(partition_terms(375, 19) == 1406223872222332124);
    lemma_partition_at_220();
    assert(partition_terms(375, 20) == 1406202623943322757);
    lemma_partition_at_199();
    assert(partition_terms(375, 21) == 1406206270015754882);
    lemma_partition_at_188();
    assert(partition_terms(375, 22) == 1406207668357500453);
    lemma_partition_at_165();
    assert(partition_terms(375, 23) == 1406207495967700198);
    lemma_partition_at_153();
    assert(partition_terms(375, 24) == 1406207441197363874);
    lemma_partition_at_128();
    assert(partition_terms(375, 25) == 1406207445548442474);
    lemma_partition_at_115();
    assert(partition_terms(375, 26) == 1406207446612586925);
    lemma_partition_at_88();
    assert(partition_terms(375, 27) == 1406207446568478816);
    lemma_partition_at_74();
    assert(partition_terms(375, 28) == 1406207446561389316);
    lemma_partition_at_45();
    assert(partition_terms(375, 29) == 1406207446561478450);
    lemma_partition_at_30();
    assert(partition_terms(375, 30) == 1406207446561484054);
}

/// The recurrence at 376.
proof fn lemma_partition_at_376()
    ensures
        partition_number(376) == 1498478743590581081,
{
    lemma_pentagonal_values();
    lemma_partition_terms_stable(376, 31, 376);
    assert(partition_terms(376, 0) == 0);
    lemma_partition_at_375();
    assert(partition_terms(376, 1) == 1406207446561484054);
    lemma_partition_at_374();
    assert(partition_terms(376, 2) == 2725718046288957554);
    lemma_partition_at_371();
    assert(partition_terms(376, 3) == 1636060401864557772);
    lemma_partition_at_369();
    assert(partition_terms(376, 4) == 677331703952219727);
    lemma_partition_at_364();
    assert(partition_terms(376, 5) == 1372475417411165767);
    lemma_partition_at_361();
    assert(partition_terms(376, 6) == 1945087476309203326);
    lemma_partition_at_354();
    assert(partition_terms(376, 7) == 1581969964261093321);
    lemma_partition_at_350();
    assert(partition_terms(376, 8) == 1302606635777391169);
    lemma_partition_at_341();
    assert(partition_terms(376, 9) == 1456650233156967199);
    lemma_partition_at_336();
    assert(partition_terms(376, 10) == 1566958093582259971);
    lemma_partition_at_325();
    assert(partition_terms(376, 11) == 1514496049353431330);
    lemma_partition_at_319();
    assert(partition_terms(376, 12) == 1479695094483990500);
    lemma_partition_at_306();
    assert(partition_terms(376, 13) == 1493813757149270505);
    lemma_partition_at_299();
    assert(partition_terms(376, 14) == 1502434253424735530);
    lemma_partition_at_284();
    assert(partition_terms(376, 15) == 1499495323630805975);
    lemma_partition_at_276();
    assert(partition_terms(376, 16) == 1497858029661468804);
    lemma_partition_at_259();
    assert(partition_terms(376, 17) == 1498317575411917479);
    lemma_partition_at_250();
    assert(partition_terms(376, 18) == 1498548368966282160);
    lemma_partition_at_231();
    assert(partition_terms(376, 19) == 1498496548914443448);
    lemma_partition_at_221();
    assert(partition_terms(376, 20) == 1498473487043269599);
    lemma_partition_at_200();
    assert(partition_terms(376, 21) == 1498477460042298987);
    lemma_partition_at_189();
    assert(partition_terms(376, 22) == 1498478987315898612);
    lemma_partition_at_166();
    assert(partition_terms(376, 23) == 1498478797981076033);
    lemma_partition_at_154();
    assert(partition_terms(376, 24) == 1498478737624402753);
    lemma_partition_at_129();
    assert(partition_terms(376, 25) == 1498478742459674623);
    lemma_partition_at_116();
    assert(partition_terms(376, 26) == 1498478743648582871);
    lemma_partition_at_89();
    assert(partition_terms(376, 27) == 1498478743598586946);
    lemma_partition_at_75();
    assert(partition_terms(376, 28) == 1498478743590468682);
    lemma_partition_at_46();
    assert(partition_terms(376, 29) == 1498478743590574240);
    lemma_partition_at_31();
    assert(partition_terms(376, 30) == 1498478743590581082);
    lemma_partition_at_0();
    assert(partition_terms(376, 31) == 1498478743590581081);
}

/// The recurrence at 377.
proof fn lemma_partition_at_377()
    ensures
        partition_number(377) == 1596675274490756791,
{
    lemma_pentagonal_values();
    lemma_partition_terms_stable(377, 31, 377);
    assert(partition_terms(377, 0) == 0);
    lemma_partition_at_376();
    assert(partition_terms(377, 1) == 1498478743590581081);
    lemma_partition_at_375();
    assert(partition_terms(377, 2) == 2904686190152065135);
    lemma_partition_at_372();
    assert(partition_terms(377, 3) == 1743148355302102285);
    lemma_partition_at_370();
    assert(partition_terms(377, 4) == 721007126934756923);
    lemma_partition_at_365();
    assert(partition_terms(377, 5) == 1462440286818838607);
    lemma_partition_at_362();
    assert(partition_terms(377, 6) == 2073338690570722708);
    lemma_partition_at_355();
    assert(partition_terms(377, 7) == 1685706157651693485);
    lemma_partition_at_351();
    assert(partition_terms(377, 8) == 1387376094588935409);
    lemma_partition_at_342();
    assert(partition_terms(377, 9) == 1552013573754696453);
    lemma_partition_at_337();
    assert(partition_terms(377, 10) == 1669963065300810425);
    lemma_partition_at_326();
    assert(partition_terms(377, 11) == 1613806463187936136);
    lemma_partition_at_320();
    assert(partition_terms(377, 12) == 1576532057411188059);
    lemma_partition_at_307();
    assert(partition_terms(377, 13) == 1591675010150045253);
    lemma_partition_at_300();
    assert(partition_terms(377, 14) == 1600928093086768855);
    lemma_partition_at_285();
    assert(partition_terms(377, 15) == 1597767955219619858);
    lemma_partition_at_277();
    assert(partition_terms(377, 16) == 1596005676786562589);
    lemma_partition_at_260();
    assert(partition_terms(377, 17) == 1596501418721323435);
    lemma_partition_at_251();
    assert(partition_terms(377, 18) == 1596750710172491994);
    lemma_partition_at_232();
    assert(partition_terms(377, 19) == 1596694572023821047);
    lemma_partition_at_222();
    assert(partition_terms(377, 20) == 1596669546150060936);
    lemma_partition_at_201();
    assert(partition_terms(377, 21) == 1596673874513719583);
    lemma_partition_at_190();
    assert(partition_terms(377, 22) == 1596675542241123676);
    lemma_partition_at_167();
    assert(partition_terms(377, 23) == 1596675334350703574);
    lemma_partition_at_155();
    assert(partition_terms(377, 24) == 1596675267857521477);
    lemma_partition_at_130();
    assert(partition_terms(377, 25) == 1596675273228836877);
    lemma_partition_at_117();
    assert(partition_terms(377, 26) == 1596675274556546953);
    lemma_partition_at_90();
    assert(partition_terms(377, 27) == 1596675274499912780);
    lemma_partition_at_76();
    assert(partition_terms(377, 28) == 1596675274490623689);
    lemma_partition_at_47();
    assert(partition_terms(377, 29) == 1596675274490748443);
    lemma_partition_at_32();
    assert(partition_terms(377, 30) == 1596675274490756792);
    lemma_partition_at_1();
    assert(partition_terms(377, 31) == 1596675274490756791);
}

/// The recurrence at 378.
proof fn lemma_partition_at_378()
    ensures
        partition_number(378) == 1701169427975813525,
{
    lemma_pentagonal_values();
    lemma_partition_terms_stable(378, 31, 378);
    assert(partition_terms(378, 0) == 0);
    lemma_partition_at_377();
    assert(partition_terms(378, 1) == 1596675274490756791);
    lemma_partition_at_376();
    assert(partition_terms(378, 2) == 3095154018081337872);
    lemma_partition_at_373();
    assert(partition_terms(378, 3) == 1857096223962212787);
    lemma_partition_at_371();
    assert(partition_terms(378, 4) == 767438579537813005);
    lemma_partition_at_366();
    assert(partition_terms(378, 5) == 1558176699187224324);
    lemma_partition_at_363();
    assert(partition_terms(378, 6) == 2209865579184431283);
    lemma_partition_at_356();
    assert(partition_terms(378, 7) == 1796099398251088921);
    lemma_partition_at_352();
    assert(partition_terms(378, 8) == 1477543424462759837);
    lemma_partition_at_343();
    assert(partition_terms(378, 9) == 1653486984273182590);
    lemma_partition_at_338();
    assert(partition_terms(378, 10) == 1779595502106978945);
    lemma_partition_at_327();
    assert(partition_terms(378, 11) == 1719490152267312401);
    lemma_partition_at_321();
    assert(partition_terms(378, 12) == 1679570586740312410);
    lemma_partition_at_308();
    assert(partition_terms(378, 13) == 1695810373276142073);
    lemma_partition_at_301();
    assert(partition_terms(378, 14) == 1705741345668545574);
    lemma_partition_at_286();
    assert(partition_terms(378, 15) == 1702343761656558801);
    lemma_partition_at_278();
    assert(partition_terms(378, 16) == 1700447197552967217);
    lemma_partition_at_261();
    assert(partition_terms(378, 17) == 1700981912615875826);
    lemma_partition_at_252();
    assert(partition_terms(378, 18) == 1701251145317128405);
    lemma_partition_at_233();
    assert(partition_terms(378, 19) == 1701190339181690076);
    lemma_partition_at_223();
    assert(partition_terms(378, 20) == 1701163186772764461);
    lemma_partition_at_202();
    assert(partition_terms(378, 21) == 1701167901339650544);
    lemma_partition_at_191();
    assert(partition_terms(378, 22) == 1701169722040751196);
    lemma_partition_at_168();
    assert(partition_terms(378, 23) == 1701169493836018445);
    lemma_partition_at_156();
    assert(partition_terms(378, 24) == 1701169420603774686);
    lemma_partition_at_131();
    assert(partition_terms(378, 25) == 1701169426568314190);
    lemma_partition_at_118();
    assert(partition_terms(378, 26) == 1701169428050388333);
    lemma_partition_at_91();
    assert(partition_terms(378, 27) == 1701169427986275974);
    lemma_partition_at_77();
    assert(partition_terms(378, 28) == 1701169427975656111);
    lemma_partition_at_48();
    assert(partition_terms(378, 29) == 1701169427975803384);
    lemma_partition_at_33();
    assert(partition_terms(378, 30) == 1701169427975813527);
    lemma_partition_at_2();
    assert(partition_terms(378, 31) == 1701169427975813525);
}

/// The recurrence at 379.
proof fn lemma_partition_at_379()
    ensures
        partition_number(379) == 1812356499739472950,
{
    lemma_pentagonal_values();
    lemma_partition_terms_stable(379, 31, 379);
    assert(partition_terms(379, 0) == 0);
    lemma_partition_at_378();
    assert(partition_terms(379, 1) == 1701169427975813525);
    lemma_partition_at_377();
    assert(partition_terms(379, 2) == 3297844702466570316);
    lemma_partition_at_374();
    assert(partition_terms(379, 3) == 1978334102739096816);
    lemma_partition_at_372();
    assert(partition_terms(379, 4) == 816796267889133966);
    lemma_partition_at_367();
    assert(partition_terms(379, 5) == 1660047056451662393);
    lemma_partition_at_364();
    assert(partition_terms(379, 6) == 2355190769910608433);
    lemma_partition_at_357();
    assert(partition_terms(379, 7) == 1913567787981249996);
    lemma_partition_at_353();
    assert(partition_terms(379, 8) == 1573444977932672568);
    lemma_partition_at_344();
    assert(partition_terms(379, 9) == 1761453624984965548);
    lemma_partition_at_339();
    assert(partition_terms(379, 10) == 1896272805608267068);
    lemma_partition_at_328();
    assert(partition_terms(379, 11) == 1831947430999152518);
    lemma_partition_at_322();
    assert(partition_terms(379, 12) == 1789199352963197822);
    lemma_partition_at_309();
    assert(partition_terms(379, 13) == 1806613533096345117);
    lemma_partition_at_302();
    assert(partition_terms(379, 14) == 1817270864328893956);
    lemma_partition_at_287();
    assert(partition_terms(379, 15) == 1813618433492822903);
    lemma_partition_at_279();
    assert(partition_terms(379, 16) == 1811577607640247828);
    lemma_partition_at_262();
    assert(partition_terms(379, 17) == 1812154280315194996);
    lemma_partition_at_253();
    assert(partition_terms(379, 18) == 1812445007273111108);
    lemma_partition_at_234();
    assert(partition_terms(379, 19) == 1812379155687140833);
    lemma_partition_at_224();
    assert(partition_terms(379, 20) == 1812349701137199083);
    lemma_partition_at_203();
    assert(partition_terms(379, 21) == 1812354835342487056);
    lemma_partition_at_192();
    assert(partition_terms(379, 22) == 1812356822619343419);
    lemma_partition_at_169();
    assert(partition_terms(379, 23) == 1812356572180418304);
    lemma_partition_at_157();
    assert(partition_terms(379, 24) == 1812356491549453535);
    lemma_partition_at_132();
    assert(partition_terms(379, 25) == 1812356498170284424);
    lemma_partition_at_119();
    assert(partition_terms(379, 26) == 1812356499823953089);
    lemma_partition_at_92();
    assert(partition_terms(379, 27) == 1812356499751419282);
    lemma_partition_at_78();
    assert(partition_terms(379, 28) == 1812356499739287118);
    lemma_partition_at_49();
    assert(partition_terms(379, 29) == 1812356499739460643);
    lemma_partition_at_34();
    assert(partition_terms(379, 30) == 1812356499739472953);
    lemma_partition_at_3();
    assert(partition_terms(379, 31) == 1812356499739472950);
}

/// The recurrence at 380.
proof fn lemma_partition_at_380()
    ensures
        partition_number(380) == 1930656072350465812,
{
    lemma_pentagonal_values();
    lemma_partition_terms_stable(380, 31, 380);
    assert(partition_terms(380, 0) == 0);
    lemma_partition_at_379();
    assert(partition_terms(380, 1) == 1812356499739472950);
    lemma_partition_at_378();
    assert(partition_terms(380, 2) == 3513525927715286475);
    lemma_partition_at_375();
    assert(partition_terms(380, 3) == 2107318481153802421);
    lemma_partition_at_373();
    assert(partition_terms(380, 4) == 869260687034677336);
    lemma_partition_at_368();
    assert(partition_terms(380, 5) == 1768436035430765685);
    lemma_partition_at_365();
    assert(partition_terms(380, 6) == 2509869195314847369);
    lemma_partition_at_358();
    assert(partition_terms(380, 7) == 2038555131046448589);
    lemma_partition_at_354();
    assert(partition_terms(380, 8) == 1675437618998338584);
    lemma_partition_at_345();
    assert(partition_terms(380, 9) == 1876320175286021743);
    lemma_partition_at_340();
    assert(partition_terms(380, 10) == 2020438111813895575);
    lemma_partition_at_329();
    assert(partition_terms(380, 11) == 1951603225867821725);
    lemma_partition_at_323();
    assert(partition_terms(380, 12) == 1905830867324243697);
    lemma_partition_at_310();
    assert(partition_terms(380, 13) == 1924502355623844061);
    lemma_partition_at_303();
    assert(partition_terms(380, 14) == 1935937897701666165);
    lemma_partition_at_288();
    assert(partition_terms(380, 15) == 1932011975540176743);
    lemma_partition_at_280();
    assert(partition_terms(380, 16) == 1929816189228494227);
    lemma_partition_at_263();
    assert(partition_terms(380, 17) == 1930438026645003842);
    lemma_partition_at_254();
    assert(partition_terms(380, 18) == 1930751918636310507);
    lemma_partition_at_235();
    assert(partition_terms(380, 19) == 1930680614450795588);
    lemma_partition_at_225();
    assert(partition_terms(380, 20) == 1930648668060099431);
    lemma_partition_at_204();
    assert(partition_terms(380, 21) == 1930654258148416926);
    lemma_partition_at_193();
    assert(partition_terms(380, 22) == 1930656426775522395);
    lemma_partition_at_170();
    assert(partition_terms(380, 23) == 1930656152006905265);
    lemma_partition_at_158();
    assert(partition_terms(380, 24) == 1930656063255126463);
    lemma_partition_at_133();
    assert(partition_terms(380, 25) == 1930656070601755975);
    lemma_partition_at_120();
    assert(partition_terms(380, 26) == 1930656072446105535);
    lemma_partition_at_93();
    assert(partition_terms(380, 27) == 1930656072364095358);
    lemma_partition_at_79();
    assert(partition_terms(380, 28) == 1930656072350246708);
    lemma_partition_at_50();
    assert(partition_terms(380, 29) == 1930656072350450934);
    lemma_partition_at_35();
    assert(partition_terms(380, 30) == 1930656072350465817);
    lemma_partition_at_4();
    assert(partition_terms(380, 31) == 1930656072350465812);
}

/// The recurrence at 381.
proof fn lemma_partition_at_381()
    ensures
        partition_number(381) == 2056513475336633805,
{
    lemma_pentagonal_values();
    lemma_partition_terms_stable(381, 31, 381);
    assert(partition_terms(381, 0) == 0);
    lemma_partition_at_380();
    assert(partition_terms(381, 1) == 1930656072350465812);
    lemma_partition_at_379();
    assert(partition_terms(381, 2) == 3743012572089938762);
    lemma_partition_at_376();
    assert(partition_terms(381, 3) == 2244533828499357681);
    lemma_partition_at_374();
    assert(partition_terms(381, 4) == 925023228771884181);
    lemma_partition_at_369();
    assert(partition_terms(381, 5) == 1883751926684222226);
    lemma_partition_at_366();
    assert(partition_terms(381, 6) == 2674490046333633545);
    lemma_partition_at_359();
    assert(partition_terms(381, 7) == 2171532479827633525);
    lemma_partition_at_355();
    assert(partition_terms(381, 8) == 1783899946908604302);
    lemma_partition_at_346();
    assert(partition_terms(381, 9) == 1998518246651890601);
    lemma_partition_at_341();
    assert(partition_terms(381, 10) == 2152561844031466631);
    lemma_partition_at_330();
    assert(partition_terms(381, 11) == 2078908556169616292);
    lemma_partition_at_324();
    assert(partition_terms(381, 12) == 2029902912534378417);
    lemma_partition_at_311();
    assert(partition_terms(381, 13) == 2049920339296955362);
    lemma_partition_at_304();
    assert(partition_terms(381, 14) == 2062189557316184827);
    lemma_partition_at_289();
    assert(partition_terms(381, 15) == 2057970168787597732);
    lemma_partition_at_281();
    assert(partition_terms(381, 16) == 2055607949642260021);
    lemma_partition_at_264();
    assert(partition_terms(381, 17) == 2056278397765320191);
    lemma_partition_at_255();
    assert(partition_terms(381, 18) == 2056617252029568871);
    lemma_partition_at_236();
    assert(partition_terms(381, 19) == 2056540056136905359);
    lemma_partition_at_226();
    assert(partition_terms(381, 20) == 2056505413010582840);
    lemma_partition_at_205();
    assert(partition_terms(381, 21) == 2056511498264442100);
    lemma_partition_at_194();
    assert(partition_terms(381, 22) == 2056513864287183945);
    lemma_partition_at_171();
    assert(partition_terms(381, 23) == 2056513562902381897);
    lemma_partition_at_159();
    assert(partition_terms(381, 24) == 2056513465239653342);
    lemma_partition_at_134();
    assert(partition_terms(381, 25) == 2056513473388694037);
    lemma_partition_at_121();
    assert(partition_terms(381, 26) == 2056513475444842088);
    lemma_partition_at_94();
    assert(partition_terms(381, 27) == 2056513475352172368);
    lemma_partition_at_80();
    assert(partition_terms(381, 28) == 2056513475336375892);
    lemma_partition_at_51();
    assert(partition_terms(381, 29) == 2056513475336615835);
    lemma_partition_at_36();
    assert(partition_terms(381, 30) == 2056513475336633812);
    lemma_partition_at_5();
    assert(partition_terms(381, 31) == 2056513475336633805);
}

/// The recurrence at 382.
proof fn lemma_partition_at_382()
    ensures
        partition_number(382) == 2190401332423765131,
{
    lemma_pentagonal_values();
    lemma_partition_terms_stable(382, 31, 382);
    assert(partition_terms(382, 0) == 0);
    lemma_partition_at_381();
    assert(partition_terms(382, 1) == 2056513475336633805);
    lemma_partition_at_380();
    assert(partition_terms(382, 2) == 3987169547687099617);
    lemma_partition_at_377();
    assert(partition_terms(382, 3) == 2390494273196342826);
    lemma_partition_at_375();
    assert(partition_terms(382, 4) == 984286826634858772);
    lemma_partition_at_370();
    assert(partition_terms(382, 5) == 2006428055002204134);
    lemma_partition_at_367();
    assert(partition_terms(382, 6) == 2849678843564732561);
    lemma_partition_at_360();
    assert(partition_terms(382, 7) == 2312999773254041440);
    lemma_partition_at_356();
    assert(partition_terms(382, 8) == 1899233592320699078);
    lemma_partition_at_347();
    assert(partition_terms(382, 9) == 2128505879191916228);
    lemma_partition_at_342();
    assert(partition_terms(382, 10) == 2293143358357677272);
    lemma_partition_at_331();
    assert(partition_terms(382, 11) == 2214342103055010657);
    lemma_partition_at_325();
    assert(partition_terms(382, 12) == 2161880058826182016);
    lemma_partition_at_312();
    assert(partition_terms(382, 13) == 2183338154863534907);
    lemma_partition_at_305();
    assert(partition_terms(382, 14) == 2196500372758592611);
    lemma_partition_at_290();
    assert(partition_terms(382, 15) == 2191966119631691725);
    lemma_partition_at_282();
    assert(partition_terms(382, 16) == 2189425167041646027);
    lemma_partition_at_265();
    assert(partition_terms(382, 17) == 2190147927995336399);
    lemma_partition_at_256();
    assert(partition_terms(382, 18) == 2190513677562207181);
    lemma_partition_at_237();
    assert(partition_terms(382, 19) == 2190430116458281310);
    lemma_partition_at_227();
    assert(partition_terms(382, 20) == 2190392555324698740);
    lemma_partition_at_206();
    assert(partition_terms(382, 21) == 2190399178312406780);
    lemma_partition_at_195();
    assert(partition_terms(382, 22) == 2190401759152619753);
    lemma_partition_at_172();
    assert(partition_terms(382, 23) == 2190401428657120140);
    lemma_partition_at_160();
    assert(partition_terms(382, 24) == 2190401321218960674);
    lemma_partition_at_135();
    assert(partition_terms(382, 25) == 2190401330254796750);
    lemma_partition_at_122();
    assert(partition_terms(382, 26) == 2190401332546117662);
    lemma_partition_at_95();
    assert(partition_terms(382, 27) == 2190401332441466243);
    lemma_partition_at_81();
    assert(partition_terms(382, 28) == 2190401332423461916);
    lemma_partition_at_52();
    assert(partition_terms(382, 29) == 2190401332423743505);
    lemma_partition_at_37();
    assert(partition_terms(382, 30) == 2190401332423765142);
    lemma_partition_at_6();
    assert(partition_terms(382, 31) == 2190401332423765131);
}

/// The recurrence at 383.
proof fn lemma_partition_at_383()
    ensures
        partition_number(383) == 2332821198543892336,
{
    lemma_pentagonal_values();
    lemma_partition_terms_stable(383, 31, 383);
    assert(partition_terms(383, 0) == 0);
    lemma_partition_at_382();
    assert(partition_terms(383, 1) == 2190401332423765131);
    lemma_partition_at_381();
    assert(partition_terms(383, 2) == 4246914807760398936);
    lemma_partition_at_378();
    assert(partition_terms(383, 3) == 2545745379784585411);
    lemma_partition_at_376();
    assert(partition_terms(383, 4) == 1047266636194004330);
    lemma_partition_at_371();
    assert(partition_terms(383, 5) == 2136924280618404112);
    lemma_partition_at_368();
    assert(partition_terms(383, 6) == 3036099629014492461);
    lemma_partition_at_361();
    assert(partition_terms(383, 7) == 2463487570116454902);
    lemma_partition_at_357();
    assert(partition_terms(383, 8) == 2021864588187096465);
    lemma_partition_at_348();
    assert(partition_terms(383, 9) == 2266769125642478871);
    lemma_partition_at_343();
    assert(partition_terms(383, 10) == 2442712685452901624);
    lemma_partition_at_332();
    assert(partition_terms(383, 11) == 2358411869816676505);
    lemma_partition_at_326();
    assert(partition_terms(383, 12) == 2302255267703802216);
    lemma_partition_at_313();
    assert(partition_terms(383, 13) == 2325255274359289553);
    lemma_partition_at_306();
    assert(partition_terms(383, 14) == 2339373937024569558);
    lemma_partition_at_291();
    assert(partition_terms(383, 15) == 2334501898968097474);
    lemma_partition_at_283();
    assert(partition_terms(383, 16) == 2331769025784549939);
    lemma_partition_at_266();
    assert(partition_terms(383, 17) == 2332548076414112106);
    lemma_partition_at_257();
    assert(partition_terms(383, 18) == 2332942800090767463);
    lemma_partition_at_238();
    assert(partition_terms(383, 19) == 2332852363251098646);
    lemma_partition_at_228();
    assert(partition_terms(383, 20) == 2332811645187471284);
    lemma_partition_at_207();
    assert(partition_terms(383, 21) == 2332818852029177774);
    lemma_partition_at_196();
    assert(partition_terms(383, 22) == 2332821666600165365);
    lemma_partition_at_173();
    assert(partition_terms(383, 23) == 2332821304273305470);
    lemma_partition_at_161();
    assert(partition_terms(383, 24) == 2332821186114237043);
    lemma_partition_at_136();
    assert(partition_terms(383, 25) == 2332821196129818723);
    lemma_partition_at_123();
    assert(partition_terms(383, 26) == 2332821198682156964);
    lemma_partition_at_96();
    assert(partition_terms(383, 27) == 2332821198564042660);
    lemma_partition_at_82();
    assert(partition_terms(383, 28) == 2332821198543536405);
    lemma_partition_at_53();
    assert(partition_terms(383, 29) == 2332821198543866336);
    lemma_partition_at_38();
    assert(partition_terms(383, 30) == 2332821198543892351);
    lemma_partition_at_7();
    assert(partition_terms(383, 31) == 2332821198543892336);
}

/// The recurrence at 384.
proof fn lemma_partition_at_384()
    ensures
        partition_number(384) == 2484305294265418180,
{
    lemma_pentagonal_values();
    lemma_partition_terms_stable(384, 31, 384);
    assert(partition_terms(384, 0) == 0);
    lemma_partition_at_383();
    assert(partition_terms(384, 1) == 2332821198543892336);
    lemma_partition_at_382();
    assert(partition_terms(384, 2) == 4523222530967657467);
    lemma_partition_at_379();
    assert(partition_terms(384, 3) == 2710866031228184517);
    lemma_partition_at_377();
    assert(partition_terms(384, 4) == 1114190756737427726);
    lemma_partition_at_372();
    assert(partition_terms(384, 5) == 2275728591587390576);
    lemma_partition_at_369();
    assert(partition_terms(384, 6) == 3234457289499728621);
    lemma_partition_at_362();
    assert(partition_terms(384, 7) == 2623558885747844520);
    lemma_partition_at_358();
    assert(partition_terms(384, 8) == 2152244821479445740);
    lemma_partition_at_349();
    assert(partition_terms(384, 9) == 2413823728830589865);
    lemma_partition_at_344();
    assert(partition_terms(384, 10) == 2601832375882882845);
    lemma_partition_at_333();
    assert(partition_terms(384, 11) == 2511656940902333222);
    lemma_partition_at_327();
    assert(partition_terms(384, 12) == 2451551591062666678);
    lemma_partition_at_314();
    assert(partition_terms(384, 13) == 2476201697213497168);
    lemma_partition_at_307();
    assert(partition_terms(384, 14) == 2491344649952354362);
    lemma_partition_at_292();
    assert(partition_terms(384, 15) == 2486110278882600690);
    lemma_partition_at_284();
    assert(partition_terms(384, 16) == 2483171349088671135);
    lemma_partition_at_267();
    assert(partition_terms(384, 17) == 2484010960819037949);
    lemma_partition_at_258();
    assert(partition_terms(384, 18) == 2484436893903447305);
    lemma_partition_at_239();
    assert(partition_terms(384, 19) == 2484339030969743720);
    lemma_partition_at_229();
    assert(partition_terms(384, 20) == 2484294898034859465);
    lemma_partition_at_208();
    assert(partition_terms(384, 21) == 2484302738691085602);
    lemma_partition_at_197();
    assert(partition_terms(384, 22) == 2484305807520964132);
    lemma_partition_at_174();
    assert(partition_terms(384, 23) == 2484305410395889382);
    lemma_partition_at_162();
    assert(partition_terms(384, 24) == 2484305280481984745);
    lemma_partition_at_137();
    assert(partition_terms(384, 25) == 2484305291579629761);
    lemma_partition_at_124();
    assert(partition_terms(384, 26) == 2484305294421570261);
    lemma_partition_at_97();
    assert(partition_terms(384, 27) == 2484305294288339331);
    lemma_partition_at_83();
    assert(partition_terms(384, 28) == 2484305294265000862);
    lemma_partition_at_54();
    assert(partition_terms(384, 29) == 2484305294265387017);
    lemma_partition_at_39();
    assert(partition_terms(384, 30) == 2484305294265418202);
    lemma_partition_at_8();
    assert(partition_terms(384, 31) == 2484305294265418180);
}

/// The recurrence at 385.
proof fn lemma_partition_at_385()
    ensures
        partition_number(385) == 2645418340688763701,
{
    lemma_pentagonal_values();
    lemma_partition_terms_stable(385, 31, 385);
    assert(partition_terms(385, 0) == 0);
    lemma_partition_at_384();
    assert(partition_terms(385, 1) == 2484305294265418180);
    lemma_partition_at_383();
    assert(partition_terms(385, 2) == 4817126492809310516);
    lemma_partition_at_380();
    assert(partition_terms(385, 3) == 2886470420458844704);
    lemma_partition_at_378();
    assert(partition_terms(385, 4) == 1185300992483031179);
    lemma_partition_at_373();
    assert(partition_terms(385, 5) == 2423358786602156264);
    lemma_partition_at_370();
    assert(partition_terms(385, 6) == 3445500014969501626);
    lemma_partition_at_363();
    assert(partition_terms(385, 7) == 2793811134972294667);
    lemma_partition_at_359();
    assert(partition_terms(385, 8) == 2290853568466294647);
    lemma_partition_at_350();
    assert(partition_terms(385, 9) == 2570216896949996799);
    lemma_partition_at_345();
    assert(partition_terms(385, 10) == 2771099453237679958);
    lemma_partition_at_334();
    assert(partition_terms(385, 11) == 2674649343045477198);
    lemma_partition_at_328();
    assert(partition_terms(385, 12) == 2610323968436362648);
    lemma_partition_at_315();
    assert(partition_terms(385, 13) == 2636739776069928974);
    lemma_partition_at_308();
    assert(partition_terms(385, 14) == 2652979562605758637);
    lemma_partition_at_293();
    assert(partition_terms(385, 15) == 2647356569913808032);
    lemma_partition_at_285();
    assert(partition_terms(385, 16) == 2644196432046659035);
    lemma_partition_at_268();
    assert(partition_terms(385, 17) == 2645101192154975395);
    lemma_partition_at_259();
    assert(partition_terms(385, 18) == 2645560737905424070);
    lemma_partition_at_240();
    assert(partition_terms(385, 19) == 2645454855658701337);
    lemma_partition_at_230();
    assert(partition_terms(385, 20) == 2645407029418955417);
    lemma_partition_at_209();
    assert(partition_terms(385, 21) == 2645415558000257792);
    lemma_partition_at_198();
    assert(partition_terms(385, 22) == 2645418903366241490);
    lemma_partition_at_175();
    assert(partition_terms(385, 23) == 2645418468208543660);
    lemma_partition_at_163();
    assert(partition_terms(385, 24) == 2645418325409547730);
    lemma_partition_at_138();
    assert(partition_terms(385, 25) == 2645418337701889561);
    lemma_partition_at_125();
    assert(partition_terms(385, 26) == 2645418340865016913);
    lemma_partition_at_98();
    assert(partition_terms(385, 27) == 2645418340714818777);
    lemma_partition_at_84();
    assert(partition_terms(385, 28) == 2645418340688275117);
    lemma_partition_at_55();
    assert(partition_terms(385, 29) == 2645418340688726393);
    lemma_partition_at_40();
    assert(partition_terms(385, 30) == 2645418340688763731);
    lemma_partition_at_9();
    assert(partition_terms(385, 31) == 2645418340688763701);
}

/// The recurrence at 386.
proof fn lemma_partition_at_386()
    ensures
        partition_number(386) == 2816759503217942792,
{
    lemma_pentagonal_values();
    lemma_partition_terms_stable(386, 31, 386);
    assert(partition_terms(386, 0) == 0);
    lemma_partition_at_385();
    assert(partition_terms(386, 1) == 2645418340688763701);
    lemma_partition_at_384();
    assert(partition_terms(386, 2) == 5129723634954181881);
    lemma_partition_at_381();
    assert(partition_terms(386, 3) == 3073210159617548076);
    lemma_partition_at_379();
    assert(partition_terms(386, 4) == 1260853659878075126);
    lemma_partition_at_374();
    assert(partition_terms(386, 5) == 2580364259605548626);
    lemma_partition_at_371();
    assert(partition_terms(386, 6) == 3670021904029948408);
    lemma_partition_at_364();
    assert(partition_terms(386, 7) == 2974878190571002368);
    lemma_partition_at_360();
    assert(partition_terms(386, 8) == 2438199120260311247);
    lemma_partition_at_351();
    assert(partition_terms(386, 9) == 2736529183323069323);
    lemma_partition_at_346();
    assert(partition_terms(386, 10) == 2951147483066355622);
    lemma_partition_at_335();
    assert(partition_terms(386, 11) == 2847996016744620297);
    lemma_partition_at_329();
    assert(partition_terms(386, 12) == 2779161130798546447);
    lemma_partition_at_316();
    assert(partition_terms(386, 13) == 2807466151139542450);
    lemma_partition_at_309();
    assert(partition_terms(386, 14) == 2824880331272689745);
    lemma_partition_at_294();
    assert(partition_terms(386, 15) == 2818840567390594230);
    lemma_partition_at_286();
    assert(partition_terms(386, 16) == 2815442983378607457);
    lemma_partition_at_269();
    assert(partition_terms(386, 17) == 2816417817748552082);
    lemma_partition_at_260();
    assert(partition_terms(386, 18) == 2816913559683312928);
    lemma_partition_at_241();
    assert(partition_terms(386, 19) == 2816799018798759890);
    lemma_partition_at_231();
    assert(partition_terms(386, 20) == 2816747198746921178);
    lemma_partition_at_210();
    assert(partition_terms(386, 21) == 2816756473849496533);
    lemma_partition_at_199();
    assert(partition_terms(386, 22) == 2816760119921928658);
    lemma_partition_at_176();
    assert(partition_terms(386, 23) == 2816759643206071368);
    lemma_partition_at_164();
    assert(partition_terms(386, 24) == 2816759486286596073);
    lemma_partition_at_139();
    assert(partition_terms(386, 25) == 2816759499897545968);
    lemma_partition_at_126();
    assert(partition_terms(386, 26) == 2816759503416768660);
    lemma_partition_at_99();
    assert(partition_terms(386, 27) == 2816759503247538785);
    lemma_partition_at_85();
    assert(partition_terms(386, 28) == 2816759503217371428);
    lemma_partition_at_56();
    assert(partition_terms(386, 29) == 2816759503217898251);
    lemma_partition_at_41();
    assert(partition_terms(386, 30) == 2816759503217942834);
    lemma_partition_at_10();
    assert(partition_terms(386, 31) == 2816759503217942792);
}

/// The recurrence at 387.
proof fn lemma_partition_at_387()
    ensures
        partition_number(387) == 2998964447736452194,
{
    lemma_pentagonal_values();
    lemma_partition_terms_stable(387, 31, 387);
    assert(partition_terms(387, 0) == 0);
    lemma_partition_at_386();
    assert(partition_terms(387, 1) == 2816759503217942792);
    lemma_partition_at_385();
    assert(partition_terms(387, 2) == 5462177843906706493);
    lemma_partition_at_382();
    assert(partition_terms(387, 3) == 3271776511482941362);
    lemma_partition_at_380();
    assert(partition_terms(387, 4) == 1341120439132475550);
    lemma_partition_at_375();
    assert(partition_terms(387, 5) == 2747327885693959604);
    lemma_partition_at_372();
    assert(partition_terms(387, 6) == 3908865720543922454);
    lemma_partition_at_365();
    assert(partition_terms(387, 7) == 3167432560659840770);
    lemma_partition_at_361();
    assert(partition_terms(387, 8) == 2594820501761803211);
    lemma_partition_at_352();
    assert(partition_terms(387, 9) == 2913376475550132295);
    lemma_partition_at_347();
    assert(partition_terms(387, 10) == 3142648762421349445);
    lemma_partition_at_336();
    assert(partition_terms(387, 11) == 3032340901996056673);
    lemma_partition_at_330();
    assert(partition_terms(387, 12) == 2958687614134206334);
    lemma_partition_at_317();
    assert(partition_terms(387, 13) == 2989013796124049298);
    lemma_partition_at_310();
    assert(partition_terms(387, 14) == 3007685284423649662);
    lemma_partition_at_295();
    assert(partition_terms(387, 15) == 3001198610296570574);
    lemma_partition_at_287();
    assert(partition_terms(387, 16) == 2997546179460499521);
    lemma_partition_at_270();
    assert(partition_terms(387, 17) == 2998596376950430638);
    lemma_partition_at_261();
    assert(partition_terms(387, 18) == 2999131092013339247);
    lemma_partition_at_242();
    assert(partition_terms(387, 19) == 2999007203570261988);
    lemma_partition_at_232();
    assert(partition_terms(387, 20) == 2998951065421591041);
    lemma_partition_at_211();
    assert(partition_terms(387, 21) == 2998961150487476808);
    lemma_partition_at_200();
    assert(partition_terms(387, 22) == 2998965123486506196);
    lemma_partition_at_177();
    assert(partition_terms(387, 23) == 2998964601370675001);
    lemma_partition_at_165();
    assert(partition_terms(387, 24) == 2998964428980874746);
    lemma_partition_at_140();
    assert(partition_terms(387, 25) == 2998964444046752881);
    lemma_partition_at_127();
    assert(partition_terms(387, 26) == 2998964447960617176);
    lemma_partition_at_100();
    assert(partition_terms(387, 27) == 2998964447770047884);
    lemma_partition_at_86();
    assert(partition_terms(387, 28) == 2998964447735784922);
    lemma_partition_at_57();
    assert(partition_terms(387, 29) == 2998964447736399076);
    lemma_partition_at_42();
    assert(partition_terms(387, 30) == 2998964447736452250);
    lemma_partition_at_11();
    assert(partition_terms(387, 31) == 2998964447736452194);
}

/// The recurrence at 388.
proof fn lemma_partition_at_388()
    ensures
        partition_number(388) == 3192707518433532826,
{
    lemma_pentagonal_values();
    lemma_partition_terms_stable(388, 31, 388);
    assert(partition_terms(388, 0) == 0);
    lemma_partition_at_387();
    assert(partition_terms(388, 1) == 2998964447736452194);
    lemma_partition_at_386();
    assert(partition_terms(388, 2) == 5815723950954394986);
    lemma_partition_at_383();
    assert(partition_terms(388, 3) == 3482902752410502650);
    lemma_partition_at_381();
    assert(partition_terms(388, 4) == 1426389277073868845);
    lemma_partition_at_376();
    assert(partition_terms(388, 5) == 2924868020664449926);
    lemma_partition_at_373();
    assert(partition_terms(388, 6) == 4162925814783575011);
    lemma_partition_at_366();
    assert(partition_terms(388, 7) == 3372187695134163692);
    lemma_partition_at_362();
    assert(partition_terms(388, 8) == 2761289291382279591);
    lemma_partition_at_353();
    assert(partition_terms(388, 9) == 3101412101430857019);
    lemma_partition_at_348();
    assert(partition_terms(388, 10) == 3346316638886239425);
    lemma_partition_at_337();
    assert(partition_terms(388, 11) == 3228367147340125453);
    lemma_partition_at_331();
    assert(partition_terms(388, 12) == 3149565892037458838);
    lemma_partition_at_318();
    assert(partition_terms(388, 13) == 3182054185388925492);
    lemma_partition_at_311();
    assert(partition_terms(388, 14) == 3202071612151502437);
    lemma_partition_at_296();
    assert(partition_terms(388, 15) == 3195105762007306606);
    lemma_partition_at_288();
    assert(partition_terms(388, 16) == 3191179839845817184);
    lemma_partition_at_271();
    assert(partition_terms(388, 17) == 3192311078349755790);
    lemma_partition_at_262();
    assert(partition_terms(388, 18) == 3192887751024702958);
    lemma_partition_at_243();
    assert(partition_terms(388, 19) == 3192753772765358070);
    lemma_partition_at_233();
    assert(partition_terms(388, 20) == 3192692966629919741);
    lemma_partition_at_212();
    assert(partition_terms(388, 21) == 3192703930337125000);
    lemma_partition_at_201();
    assert(partition_terms(388, 22) == 3192708258700783647);
    lemma_partition_at_178();
    assert(partition_terms(388, 23) == 3192707686999177992);
    lemma_partition_at_166();
    assert(partition_terms(388, 24) == 3192707497664355413);
    lemma_partition_at_141();
    assert(partition_terms(388, 25) == 3192707514335044621);
    lemma_partition_at_128();
    assert(partition_terms(388, 26) == 3192707518686123221);
    lemma_partition_at_101();
    assert(partition_terms(388, 27) == 3192707518471642095);
    lemma_partition_at_87();
    assert(partition_terms(388, 28) == 3192707518432754422);
    lemma_partition_at_58();
    assert(partition_terms(388, 29) == 3192707518433469642);
    lemma_partition_at_43();
    assert(partition_terms(388, 30) == 3192707518433532903);
    lemma_partition_at_12();
    assert(partition_terms(388, 31) == 3192707518433532826);
}

/// The recurrence at 389.
proof fn lemma_partition_at_389()
    ensures
        partition_number(389) == 3398704041358160275,
{
    lemma_pentagonal_values();
    lemma_partition_terms_stable(389, 31, 389);
    assert(partition_terms(389, 0) == 0);
    lemma_partition_at_388();
    assert(partition_terms(389, 1) == 3192707518433532826);
    lemma_partition_at_387();
    assert(partition_terms(389, 2) == 6191671966169985020);
    lemma_partition_at_384();
    assert(partition_terms(389, 3) == 3707366671904566840);
    lemma_partition_at_382();
    assert(partition_terms(389, 4) == 1516965339480801709);
    lemma_partition_at_377();
    assert(partition_terms(389, 5) == 3113640613971558500);
    lemma_partition_at_374();
    assert(partition_terms(389, 6) == 4433151213699032000);
    lemma_partition_at_367();
    assert(partition_terms(389, 7) == 3589900425136503573);
    lemma_partition_at_363();
    assert(partition_terms(389, 8) == 2938211545139296614);
    lemma_partition_at_354();
    assert(partition_terms(389, 9) == 3301329057187406619);
    lemma_partition_at_349();
    assert(partition_terms(389, 10) == 3562907964538550744);
    lemma_partition_at_338();
    assert(partition_terms(389, 11) == 3436799446704754389);
    lemma_partition_at_332();
    assert(partition_terms(389, 12) == 3352498631068529270);
    lemma_partition_at_319();
    assert(partition_terms(389, 13) == 3387299585937970100);
    lemma_partition_at_312();
    assert(partition_terms(389, 14) == 3408757681975322991);
    lemma_partition_at_297();
    assert(partition_terms(389, 15) == 3401278116896812407);
    lemma_partition_at_289();
    assert(partition_terms(389, 16) == 3397058728368225312);
    lemma_partition_at_272();
    assert(partition_terms(389, 17) == 3398277102718069645);
    lemma_partition_at_263();
    assert(partition_terms(389, 18) == 3398898940134579260);
    lemma_partition_at_244();
    assert(partition_terms(389, 19) == 3398754072442082815);
    lemma_partition_at_234();
    assert(partition_terms(389, 20) == 3398688220856112540);
    lemma_partition_at_213();
    assert(partition_terms(389, 21) == 3398700137537348818);
    lemma_partition_at_202();
    assert(partition_terms(389, 22) == 3398704852104234901);
    lemma_partition_at_179();
    assert(partition_terms(389, 23) == 3398704226257481781);
    lemma_partition_at_167();
    assert(partition_terms(389, 24) == 3398704018367061679);
    lemma_partition_at_142();
    assert(partition_terms(389, 25) == 3398704036807354999);
    lemma_partition_at_129();
    assert(partition_terms(389, 26) == 3398704041642626869);
    lemma_partition_at_102();
    assert(partition_terms(389, 27) == 3398704041401361490);
    lemma_partition_at_88();
    assert(partition_terms(389, 28) == 3398704041357253381);
    lemma_partition_at_59();
    assert(partition_terms(389, 29) == 3398704041358085201);
    lemma_partition_at_44();
    assert(partition_terms(389, 30) == 3398704041358160376);
    lemma_partition_at_13();
    assert(partition_terms(389, 31) == 3398704041358160275);
}

/// The recurrence at 390.
proof fn lemma_partition_at_390()
    ensures
        partition_number(390) == 3617712763867604423,
{
    lemma_pentagonal_values();
    lemma_partition_terms_stable(390, 31, 390);
    assert(partition_terms(390, 0) == 0);
    lemma_partition_at_389();
    assert(partition_terms(390, 1) == 3398704041358160275);
    lemma_partition_at_388();
    assert(partition_terms(390, 2) == 6591411559791693101);
    lemma_partition_at_385();
    assert(partition_terms(390, 3) == 3945993219102929400);
    lemma_partition_at_383();
    assert(partition_terms(390, 4) == 1613172020559037064);
    lemma_partition_at_378();
    assert(partition_terms(390, 5) == 3314341448534850589);
    lemma_partition_at_375();
    assert(partition_terms(390, 6) == 4720548895096334643);
    lemma_partition_at_368();
    assert(partition_terms(390, 7) == 3821373546700246294);
    lemma_partition_at_364();
    assert(partition_terms(390, 8) == 3126229833241300254);
    lemma_partition_at_355();
    assert(partition_terms(390, 9) == 3513862366160329477);
    lemma_partition_at_350();
    assert(partition_terms(390, 10) == 3793225694644031629);
    lemma_partition_at_339();
    assert(partition_terms(390, 11) == 3658406514020730109);
    lemma_partition_at_333();
    assert(partition_terms(390, 12) == 3568231079040180486);
    lemma_partition_at_320();
    assert(partition_terms(390, 13) == 3605505484816928563);
    lemma_partition_at_313();
    assert(partition_terms(390, 14) == 3628505491472415900);
    lemma_partition_at_298();
    assert(partition_terms(390, 15) == 3620475243087472860);
    lemma_partition_at_290();
    assert(partition_terms(390, 16) == 3615940989960571974);
    lemma_partition_at_273();
    assert(partition_terms(390, 17) == 3617253041761388189);
    lemma_partition_at_264();
    assert(partition_terms(390, 18) == 3617923489884448359);
    lemma_partition_at_245();
    assert(partition_terms(390, 19) == 3617766871471920413);
    lemma_partition_at_235();
    assert(partition_terms(390, 20) == 3617695567286405494);
    lemma_partition_at_214();
    assert(partition_terms(390, 21) == 3617708517382331389);
    lemma_partition_at_203();
    assert(partition_terms(390, 22) == 3617713651587619362);
    lemma_partition_at_180();
    assert(partition_terms(390, 23) == 3617712966630228426);
    lemma_partition_at_168();
    assert(partition_terms(390, 24) == 3617712738425495675);
    lemma_partition_at_143();
    assert(partition_terms(390, 25) == 3617712758816478432);
    lemma_partition_at_130();
    assert(partition_terms(390, 26) == 3617712764187793832);
    lemma_partition_at_103();
    assert(partition_terms(390, 27) == 3617712763916544882);
    lemma_partition_at_89();
    assert(partition_terms(390, 28) == 3617712763866548957);
    lemma_partition_at_60();
    assert(partition_terms(390, 29) == 3617712763867515424);
    lemma_partition_at_45();
    assert(partition_terms(390, 30) == 3617712763867604558);
    lemma_partition_at_14();
    assert(partition_terms(390, 31) == 3617712763867604423);
}

/// The recurrence at 391.
proof fn lemma_partition_at_391()
    ensures
        partition_number(391) == 3850538434667429186,
{
    lemma_pentagonal_values();
    lemma_partition_terms_stable(391, 31, 391);
    assert(partition_terms(391, 0) == 0);
    lemma_partition_at_390();
    assert(partition_terms(391, 1) == 3617712763867604423);
    lemma_partition_at_389();
    assert(partition_terms(391, 2) == 7016416805225764698);
    lemma_partition_at_386();
    assert(partition_terms(391, 3) == 4199657302007821906);
    lemma_partition_at_384();
    assert(partition_terms(391, 4) == 1715352007742403726);
    lemma_partition_at_379();
    assert(partition_terms(391, 5) == 3527708507481876676);
    lemma_partition_at_376();
    assert(partition_terms(391, 6) == 5026187251072457757);
    lemma_partition_at_369();
    assert(partition_terms(391, 7) == 4067458553160119712);
    lemma_partition_at_365();
    assert(partition_terms(391, 8) == 3326025393276038028);
    lemma_partition_at_356();
    assert(partition_terms(391, 9) == 3739791574209380390);
    lemma_partition_at_351();
    assert(partition_terms(391, 10) == 4038121637272138466);
    lemma_partition_at_340();
    assert(partition_terms(391, 11) == 3894003700744264634);
    lemma_partition_at_334();
    assert(partition_terms(391, 12) == 3797553590552061874);
    lemma_partition_at_321();
    assert(partition_terms(391, 13) == 3837473156079061865);
    lemma_partition_at_314();
    assert(partition_terms(391, 14) == 3862123262229892355);
    lemma_partition_at_299();
    assert(partition_terms(391, 15) == 3853502765954427330);
    lemma_partition_at_291();
    assert(partition_terms(391, 16) == 3848630727897955246);
    lemma_partition_at_274();
    assert(partition_terms(391, 17) == 3850043477463128696);
    lemma_partition_at_265();
    assert(partition_terms(391, 18) == 3850766238416819068);
    lemma_partition_at_246();
    assert(partition_terms(391, 19) == 3850596941694427514);
    lemma_partition_at_236();
    assert(partition_terms(391, 20) == 3850519745801764002);
    lemma_partition_at_215();
    assert(partition_terms(391, 21) == 3850533816347463289);
    lemma_partition_at_204();
    assert(partition_terms(391, 22) == 3850539406435780784);
    lemma_partition_at_181();
    assert(partition_terms(391, 23) == 3850538656961369003);
    lemma_partition_at_169();
    assert(partition_terms(391, 24) == 3850538406522443888);
    lemma_partition_at_144();
    assert(partition_terms(391, 25) == 3850538429063098333);
    lemma_partition_at_131();
    assert(partition_terms(391, 26) == 3850538435027637837);
    lemma_partition_at_104();
    assert(partition_terms(391, 27) == 3850538434722836472);
    lemma_partition_at_90();
    assert(partition_terms(391, 28) == 3850538434666202299);
    lemma_partition_at_61();
    assert(partition_terms(391, 29) == 3850538434667323804);
    lemma_partition_at_46();
    assert(partition_terms(391, 30) == 3850538434667429362);
    lemma_partition_at_15();
    assert(partition_terms(391, 31) == 3850538434667429186);
}

/// The recurrence at 392.
proof fn lemma_partition_at_392()
    ensures
        partition_number(392) == 4098034535626594791,
{
    lemma_pentagonal_values();
    lemma_partition_terms_stable(392, 32, 392);
    assert(partition_terms(392, 0) == 0);
    lemma_partition_at_391();
    assert(partition_terms(392, 1) == 3850538434667429186);
    lemma_partition_at_390();
    assert(partition_terms(392, 2) == 7468251198535033609);
    lemma_partition_at_387();
    assert(partition_terms(392, 3) == 4469286750798581415);
    lemma_partition_at_385();
    assert(partition_terms(392, 4) == 1823868410109817714);
    lemma_partition_at_380();
    assert(partition_terms(392, 5) == 3754524482460283526);
    lemma_partition_at_377();
    assert(partition_terms(392, 6) == 5351199756951040317);
    lemma_partition_at_370();
    assert(partition_terms(392, 7) == 4329058528583694955);
    lemma_partition_at_366();
    assert(partition_terms(392, 8) == 3538320408934283636);
    lemma_partition_at_357();
    assert(partition_terms(392, 9) == 3979943390863642073);
    lemma_partition_at_352();
    assert(partition_terms(392, 10) == 4298499364651971157);
    lemma_partition_at_341();
    assert(partition_terms(392, 11) == 4144455767272395127);
    lemma_partition_at_335();
    assert(partition_terms(392, 12) == 4041304300950659802);
    lemma_partition_at_322();
    assert(partition_terms(392, 13) == 4084052378986614498);
    lemma_partition_at_315();
    assert(partition_terms(392, 14) == 4110468186620180824);
    lemma_partition_at_300();
    assert(partition_terms(392, 15) == 4101215103683457222);
    lemma_partition_at_292();
    assert(partition_terms(392, 16) == 4095980732613703550);
    lemma_partition_at_275();
    assert(partition_terms(392, 17) == 4097501713106554725);
    lemma_partition_at_266();
    assert(partition_terms(392, 18) == 4098280763736116892);
    lemma_partition_at_247();
    assert(partition_terms(392, 19) == 4098097789846262866);
    lemma_partition_at_237();
    assert(partition_terms(392, 20) == 4098014228742336995);
    lemma_partition_at_216();
    assert(partition_terms(392, 21) == 4098029513893585476);
    lemma_partition_at_205();
    assert(partition_terms(392, 22) == 4098035599147444736);
    lemma_partition_at_182();
    assert(partition_terms(392, 23) == 4098034779270536413);
    lemma_partition_at_170();
    assert(partition_terms(392, 24) == 4098034504501919283);
    lemma_partition_at_145();
    assert(partition_terms(392, 25) == 4098034529410777292);
    lemma_partition_at_132();
    assert(partition_terms(392, 26) == 4098034536031608181);
    lemma_partition_at_105();
    assert(partition_terms(392, 27) == 4098034535689282472);
    lemma_partition_at_91();
    assert(partition_terms(392, 28) == 4098034535625170113);
    lemma_partition_at_62();
    assert(partition_terms(392, 29) == 4098034535626470269);
    lemma_partition_at_47();
    assert(partition_terms(392, 30) == 4098034535626595023);
    lemma_partition_at_16();
    assert(partition_terms(392, 31) == 4098034535626594792);
    lemma_partition_at_0();
    assert(partition_terms(392, 32) == 4098034535626594791);
}

/// The recurrence at 393.
proof fn lemma_partition_at_393()
    ensures
        partition_number(393) == 4361106170762284114,
{
    lemma_pentagonal_values();
    lemma_partition_terms_stable(393, 32, 393);
    assert(partition_terms(393, 0) == 0);
    lemma_partition_at_392();
    assert(partition_terms(393, 1) == 4098034535626594791);
    lemma_partition_at_391();
    assert(partition_terms(393, 2) == 7948572970294023977);
    lemma_partition_at_388();
    assert(partition_terms(393, 3) == 4755865451860491151);
    lemma_partition_at_386();
    assert(partition_terms(393, 4) == 1939105948642548359);
    lemma_partition_at_381();
    assert(partition_terms(393, 5) == 3995619423979182164);
    lemma_partition_at_378();
    assert(partition_terms(393, 6) == 5696788851954995689);
    lemma_partition_at_371();
    assert(partition_terms(393, 7) == 4607131207530595907);
    lemma_partition_at_367();
    assert(partition_terms(393, 8) == 3763880418968067480);
    lemma_partition_at_358();
    assert(partition_terms(393, 9) == 4235194483236466260);
    lemma_partition_at_353();
    assert(partition_terms(393, 10) == 4575317293285043688);
    lemma_partition_at_342();
    assert(partition_terms(393, 11) == 4410679814119282644);
    lemma_partition_at_336();
    assert(partition_terms(393, 12) == 4300371953693989872);
    lemma_partition_at_323();
    assert(partition_terms(393, 13) == 4346144312237567900);
    lemma_partition_at_316();
    assert(partition_terms(393, 14) == 4374449332578563903);
    lemma_partition_at_301();
    assert(partition_terms(393, 15) == 4364518360186160402);
    lemma_partition_at_293();
    assert(partition_terms(393, 16) == 4358895367494209797);
    lemma_partition_at_276();
    assert(partition_terms(393, 17) == 4360532661463546968);
    lemma_partition_at_267();
    assert(partition_terms(393, 18) == 4361372273193913782);
    lemma_partition_at_248();
    assert(partition_terms(393, 19) == 4361174546677232110);
    lemma_partition_at_238();
    assert(partition_terms(393, 20) == 4361084109837563293);
    lemma_partition_at_217();
    assert(partition_terms(393, 21) == 4361100711435671207);
    lemma_partition_at_206();
    assert(partition_terms(393, 22) == 4361107334423379247);
    lemma_partition_at_183();
    assert(partition_terms(393, 23) == 4361106437738561720);
    lemma_partition_at_171();
    assert(partition_terms(393, 24) == 4361106136353759672);
    lemma_partition_at_146();
    assert(partition_terms(393, 25) == 4361106163870812271);
    lemma_partition_at_133();
    assert(partition_terms(393, 26) == 4361106171217441783);
    lemma_partition_at_106();
    assert(partition_terms(393, 27) == 4361106170833165447);
    lemma_partition_at_92();
    assert(partition_terms(393, 28) == 4361106170760631640);
    lemma_partition_at_63();
    assert(partition_terms(393, 29) == 4361106170762137139);
    lemma_partition_at_48();
    assert(partition_terms(393, 30) == 4361106170762284412);
    lemma_partition_at_17();
    assert(partition_terms(393, 31) == 4361106170762284115);
    lemma_partition_at_1();
    assert(partition_terms(393, 32) == 4361106170762284114);
}

/// The recurrence at 394.
proof fn lemma_partition_at_394()
    ensures
        partition_number(394) == 4640713124699623515,
{
    lemma_pentagonal_values();
    lemma_partition_terms_stable(394, 32, 394);
    assert(partition_terms(394, 0) == 0);
    lemma_partition_at_393();
    assert(partition_terms(394, 1) == 4361106170762284114);
    lemma_partition_at_392();
    assert(partition_terms(394, 2) == 8459140706388878905);
    lemma_partition_at_389();
    assert(partition_terms(394, 3) == 5060436665030718630);
    lemma_partition_at_387();
    assert(partition_terms(394, 4) == 2061472217294266436);
    lemma_partition_at_382();
    assert(partition_terms(394, 5) == 4251873549718031567);
    lemma_partition_at_379();
    assert(partition_terms(394, 6) == 6064230049457504517);
    lemma_partition_at_372();
    assert(partition_terms(394, 7) == 4902692214607541667);
    lemma_partition_at_368();
    assert(partition_terms(394, 8) == 4003516866211453318);
    lemma_partition_at_359();
    assert(partition_terms(394, 9) == 4506474432717453338);
    lemma_partition_at_354();
    assert(partition_terms(394, 10) == 4869591944765563343);
    lemma_partition_at_343();
    assert(partition_terms(394, 11) == 4693648384955140590);
    lemma_partition_at_337();
    assert(partition_terms(394, 12) == 4575698893409026618);
    lemma_partition_at_324();
    assert(partition_terms(394, 13) == 4624704537044264493);
    lemma_partition_at_317();
    assert(partition_terms(394, 14) == 4655030719034107457);
    lemma_partition_at_302();
    assert(partition_terms(394, 15) == 4644373387801558618);
    lemma_partition_at_294();
    assert(partition_terms(394, 16) == 4638333623919463103);
    lemma_partition_at_277();
    assert(partition_terms(394, 17) == 4640095902352520372);
    lemma_partition_at_268();
    assert(partition_terms(394, 18) == 4641000662460836732);
    lemma_partition_at_249();
    assert(partition_terms(394, 19) == 4640787025541016107);
    lemma_partition_at_239();
    assert(partition_terms(394, 20) == 4640689162607312522);
    lemma_partition_at_218();
    assert(partition_terms(394, 21) == 4640707190789829193);
    lemma_partition_at_207();
    assert(partition_terms(394, 22) == 4640714397631535683);
    lemma_partition_at_184();
    assert(partition_terms(394, 23) == 4640713417168655253);
    lemma_partition_at_172();
    assert(partition_terms(394, 24) == 4640713086673155640);
    lemma_partition_at_147();
    assert(partition_terms(394, 25) == 4640713117061827618);
    lemma_partition_at_134();
    assert(partition_terms(394, 26) == 4640713125210868313);
    lemma_partition_at_107();
    assert(partition_terms(394, 27) == 4640713124779718924);
    lemma_partition_at_93();
    assert(partition_terms(394, 28) == 4640713124697708747);
    lemma_partition_at_64();
    assert(partition_terms(394, 29) == 4640713124699450377);
    lemma_partition_at_49();
    assert(partition_terms(394, 30) == 4640713124699623902);
    lemma_partition_at_18();
    assert(partition_terms(394, 31) == 4640713124699623517);
    lemma_partition_at_2();
    assert(partition_terms(394, 32) == 4640713124699623515);
}

/// The recurrence at 395.
proof fn lemma_partition_at_395()
    ensures
        partition_number(395) == 4937873096788191655,
{
    lemma_pentagonal_values();
    lemma_partition_terms_stable(395, 32, 395);
    assert(partition_terms(395, 0) == 0);
    lemma_partition_at_394();
    assert(partition_terms(395, 1) == 4640713124699623515);
    lemma_partition_at_393();
    assert(partition_terms(395, 2) == 9001819295461907629);
    lemma_partition_at_390();
    assert(partition_terms(395, 3) == 5384106531594303206);
    lemma_partition_at_388();
    assert(partition_terms(395, 4) == 2191399013160770380);
    lemma_partition_at_383();
    assert(partition_terms(395, 5) == 4524220211704662716);
    lemma_partition_at_380();
    assert(partition_terms(395, 6) == 6454876284055128528);
    lemma_partition_at_373();
    assert(partition_terms(395, 7) == 5216818489936003443);
    lemma_partition_at_369();
    assert(partition_terms(395, 8) == 4258089792023665398);
    lemma_partition_at_360();
    assert(partition_terms(395, 9) == 4794768862334356519);
    lemma_partition_at_355();
    assert(partition_terms(395, 10) == 5182401395253385742);
    lemma_partition_at_344();
    assert(partition_terms(395, 11) == 4994392748201092762);
    lemma_partition_at_338();
    assert(partition_terms(395, 12) == 4868284230367296407);
    lemma_partition_at_325();
    assert(partition_terms(395, 13) == 4920746274596125048);
    lemma_partition_at_318();
    assert(partition_terms(395, 14) == 4953234567947591702);
    lemma_partition_at_303();
    assert(partition_terms(395, 15) == 4941799025869769598);
    lemma_partition_at_295();
    assert(partition_terms(395, 16) == 4935312351742690510);
    lemma_partition_at_278();
    assert(partition_terms(395, 17) == 4937208915846282094);
    lemma_partition_at_269();
    assert(partition_terms(395, 18) == 4938183750216226719);
    lemma_partition_at_250();
    assert(partition_terms(395, 19) == 4937952956661862038);
    lemma_partition_at_240();
    assert(partition_terms(395, 20) == 4937847074415139305);
    lemma_partition_at_219();
    assert(partition_terms(395, 21) == 4937866648271300450);
    lemma_partition_at_208();
    assert(partition_terms(395, 22) == 4937874488927526587);
    lemma_partition_at_185();
    assert(partition_terms(395, 23) == 4937873417103752250);
    lemma_partition_at_173();
    assert(partition_terms(395, 24) == 4937873054776892355);
    lemma_partition_at_148();
    assert(partition_terms(395, 25) == 4937873088326311852);
    lemma_partition_at_135();
    assert(partition_terms(395, 26) == 4937873097362147928);
    lemma_partition_at_108();
    assert(partition_terms(395, 27) == 4937873096878645084);
    lemma_partition_at_94();
    assert(partition_terms(395, 28) == 4937873096785975364);
    lemma_partition_at_65();
    assert(partition_terms(395, 29) == 4937873096787987922);
    lemma_partition_at_50();
    assert(partition_terms(395, 30) == 4937873096788192148);
    lemma_partition_at_19();
    assert(partition_terms(395, 31) == 4937873096788191658);
    lemma_partition_at_3();
    assert(partition_terms(395, 32) == 4937873096788191655);
}

/// The recurrence at 396.
proof fn lemma_partition_at_396()
    ensures
        partition_number(396) == 5253665124416975163,
{
    lemma_pentagonal_values();
    lemma_partition_terms_stable(396, 32, 396);
    assert(partition_terms(396, 0) == 0);
    lemma_partition_at_395();
    assert(partition_terms(396, 1) == 4937873096788191655);
    lemma_partition_at_394();
    assert(partition_terms(396, 2) == 9578586221487815170);
    lemma_partition_at_391();
    assert(partition_terms(396, 3) == 5728047786820385984);
    lemma_partition_at_389();
    assert(partition_terms(396, 4) == 2329343745462225709);
    lemma_partition_at_384();
    assert(partition_terms(396, 5) == 4813649039727643889);
    lemma_partition_at_381();
    assert(partition_terms(396, 6) == 6870162515064277694);
    lemma_partition_at_374();
    assert(partition_terms(396, 7) == 5550651915336804194);
    lemma_partition_at_370();
    assert(partition_terms(396, 8) == 4528510686969458832);
    lemma_partition_at_361();
    assert(partition_terms(396, 9) == 5101122745867496391);
    lemma_partition_at_356();
    assert(partition_terms(396, 10) == 5514888926800838753);
    lemma_partition_at_345();
    assert(partition_terms(396, 11) == 5314006370513155594);
    lemma_partition_at_339();
    assert(partition_terms(396, 12) == 5179187189889854074);
    lemma_partition_at_326();
    assert(partition_terms(396, 13) == 5235343792002728363);
    lemma_partition_at_319();
    assert(partition_terms(396, 14) == 5270144746872169193);
    lemma_partition_at_304();
    assert(partition_terms(396, 15) == 5257875528852939728);
    lemma_partition_at_296();
    assert(partition_terms(396, 16) == 5250909678708743897);
    lemma_partition_at_279();
    assert(partition_terms(396, 17) == 5252950504561318972);
    lemma_partition_at_270();
    assert(partition_terms(396, 18) == 5254000702051250089);
    lemma_partition_at_251();
    assert(partition_terms(396, 19) == 5253751410600081530);
    lemma_partition_at_241();
    assert(partition_terms(396, 20) == 5253636869715528492);
    lemma_partition_at_220();
    assert(partition_terms(396, 21) == 5253658117994537859);
    lemma_partition_at_209();
    assert(partition_terms(396, 22) == 5253666646575840234);
    lemma_partition_at_186();
    assert(partition_terms(396, 23) == 5253665475143147861);
    lemma_partition_at_174();
    assert(partition_terms(396, 24) == 5253665078018073111);
    lemma_partition_at_149();
    assert(partition_terms(396, 25) == 5253665115045428311);
    lemma_partition_at_136();
    assert(partition_terms(396, 26) == 5253665125061009991);
    lemma_partition_at_109();
    assert(partition_terms(396, 27) == 5253665124519063751);
    lemma_partition_at_95();
    assert(partition_terms(396, 28) == 5253665124414412332);
    lemma_partition_at_66();
    assert(partition_terms(396, 29) == 5253665124416735852);
    lemma_partition_at_51();
    assert(partition_terms(396, 30) == 5253665124416975795);
    lemma_partition_at_20();
    assert(partition_terms(396, 31) == 5253665124416975168);
    lemma_partition_at_4();
    assert(partition_terms(396, 32) == 5253665124416975163);
}

/// The recurrence at 397.
proof fn lemma_partition_at_397()
    ensures
        partition_number(397) == 5589233202595404488,
{
    lemma_pentagonal_values();
    lemma_partition_terms_stable(397, 32, 397);
    assert(partition_terms(397, 0) == 0);
    lemma_partition_at_396();
    assert(partition_terms(397, 1) == 5253665124416975163);
    lemma_partition_at_395();
    assert(partition_terms(397, 2) == 10191538221205166818);
    lemma_partition_at_392();
    assert(partition_terms(397, 3) == 6093503685578572027);
    lemma_partition_at_390();
    assert(partition_terms(397, 4) == 2475790921710967604);
    lemma_partition_at_385();
    assert(partition_terms(397, 5) == 5121209262399731305);
    lemma_partition_at_382();
    assert(partition_terms(397, 6) == 7311610594823496436);
    lemma_partition_at_375();
    assert(partition_terms(397, 7) == 5905403148262012382);
    lemma_partition_at_371();
    assert(partition_terms(397, 8) == 4815745503837612600);
    lemma_partition_at_362();
    assert(partition_terms(397, 9) == 5426643907589496701);
    lemma_partition_at_357();
    assert(partition_terms(397, 10) == 5868266889518855138);
    lemma_partition_at_346();
    assert(partition_terms(397, 11) == 5653648589775568839);
    lemma_partition_at_340();
    assert(partition_terms(397, 12) == 5509530653247695007);
    lemma_partition_at_327();
    assert(partition_terms(397, 13) == 5569636003087361551);
    lemma_partition_at_320();
    assert(partition_terms(397, 14) == 5606910408864109628);
    lemma_partition_at_305();
    assert(partition_terms(397, 15) == 5593748190969051924);
    lemma_partition_at_297();
    assert(partition_terms(397, 16) == 5586268625890541340);
    lemma_partition_at_280();
    assert(partition_terms(397, 17) == 5588464412202223856);
    lemma_partition_at_271();
    assert(partition_terms(397, 18) == 5589595650706162462);
    lemma_partition_at_252();
    assert(partition_terms(397, 19) == 5589326418004909883);
    lemma_partition_at_242();
    assert(partition_terms(397, 20) == 5589202529561832624);
    lemma_partition_at_221();
    assert(partition_terms(397, 21) == 5589225591433006473);
    lemma_partition_at_210();
    assert(partition_terms(397, 22) == 5589234866535581828);
    lemma_partition_at_187();
    assert(partition_terms(397, 23) == 5589233586524539560);
    lemma_partition_at_175();
    assert(partition_terms(397, 24) == 5589233151366841730);
    lemma_partition_at_150();
    assert(partition_terms(397, 25) == 5589233192220077043);
    lemma_partition_at_137();
    assert(partition_terms(397, 26) == 5589233203317722059);
    lemma_partition_at_110();
    assert(partition_terms(397, 27) == 5589233202710558313);
    lemma_partition_at_96();
    assert(partition_terms(397, 28) == 5589233202592444009);
    lemma_partition_at_67();
    assert(partition_terms(397, 29) == 5589233202595123698);
    lemma_partition_at_52();
    assert(partition_terms(397, 30) == 5589233202595405287);
    lemma_partition_at_21();
    assert(partition_terms(397, 31) == 5589233202595404495);
    lemma_partition_at_5();
    assert(partition_terms(397, 32) == 5589233202595404488);
}

/// The recurrence at 398.
proof fn lemma_partition_at_398()
    ensures
        partition_number(398) == 5945790114707874597,
{
    lemma_pentagonal_values();
    lemma_partition_terms_stable(398, 32, 398);
    assert(partition_terms(398, 0) == 0);
    lemma_partition_at_397();
    assert(partition_terms(398, 1) == 5589233202595404488);
    lemma_partition_at_396();
    assert(partition_terms(398, 2) == 10842898327012379651);
    lemma_partition_at_393();
    assert(partition_terms(398, 3) == 6481792156250095537);
    lemma_partition_at_391();
    assert(partition_terms(398, 4) == 2631253721582666351);
    lemma_partition_at_386();
    assert(partition_terms(398, 5) == 5448013224800609143);
    lemma_partition_at_383();
    assert(partition_terms(398, 6) == 7780834423344501479);
    lemma_partition_at_376();
    assert(partition_terms(398, 7) == 6282355679753920398);
    lemma_partition_at_372();
    assert(partition_terms(398, 8) == 5120817844903957548);
    lemma_partition_at_363();
    assert(partition_terms(398, 9) == 5772506724901164507);
    lemma_partition_at_358();
    assert(partition_terms(398, 10) == 6243820789169563287);
    lemma_partition_at_347();
    assert(partition_terms(398, 11) == 6014548502298346137);
    lemma_partition_at_341();
    assert(partition_terms(398, 12) == 5860504904918770107);
    lemma_partition_at_328();
    assert(partition_terms(398, 13) == 5924830279527884657);
    lemma_partition_at_321();
    assert(partition_terms(398, 14) == 5964749845054884648);
    lemma_partition_at_306();
    assert(partition_terms(398, 15) == 5950631182389604643);
    lemma_partition_at_298();
    assert(partition_terms(398, 16) == 5942600934004661603);
    lemma_partition_at_281();
    assert(partition_terms(398, 17) == 5944963153149999314);
    lemma_partition_at_272();
    assert(partition_terms(398, 18) == 5946181527499843647);
    lemma_partition_at_253();
    assert(partition_terms(398, 19) == 5945890800541927535);
    lemma_partition_at_243();
    assert(partition_terms(398, 20) == 5945756822282582647);
    lemma_partition_at_222();
    assert(partition_terms(398, 21) == 5945781848156342758);
    lemma_partition_at_211();
    assert(partition_terms(398, 22) == 5945791933222228525);
    lemma_partition_at_188();
    assert(partition_terms(398, 23) == 5945790534880482954);
    lemma_partition_at_176();
    assert(partition_terms(398, 24) == 5945790058164625664);
    lemma_partition_at_151();
    assert(partition_terms(398, 25) == 5945790103225250246);
    lemma_partition_at_138();
    assert(partition_terms(398, 26) == 5945790115517592077);
    lemma_partition_at_111();
    assert(partition_terms(398, 27) == 5945790114837688874);
    lemma_partition_at_97();
    assert(partition_terms(398, 28) == 5945790114704457944);
    lemma_partition_at_68();
    assert(partition_terms(398, 29) == 5945790114707545679);
    lemma_partition_at_53();
    assert(partition_terms(398, 30) == 5945790114707875610);
    lemma_partition_at_22();
    assert(partition_terms(398, 31) == 5945790114707874608);
    lemma_partition_at_6();
    assert(partition_terms(398, 32) == 5945790114707874597);
}

/// The recurrence at 399.
proof fn lemma_partition_at_399()
    ensures
        partition_number(399) == 6324621482504294325,
{
    lemma_pentagonal_values();
    lemma_partition_terms_stable(399, 32, 399);
    assert(partition_terms(399, 0) == 0);
    lemma_partition_at_398();
    assert(partition_terms(399, 1) == 5945790114707874597);
    lemma_partition_at_397();
    assert(partition_terms(399, 2) == 11535023317303279085);
    lemma_partition_at_394();
    assert(partition_terms(399, 3) == 6894310192603655570);
    lemma_partition_at_392();
    assert(partition_terms(399, 4) == 2796275656977060779);
    lemma_partition_at_387();
    assert(partition_terms(399, 5) == 5795240104713512973);
    lemma_partition_at_384();
    assert(partition_terms(399, 6) == 8279545398978931153);
    lemma_partition_at_377();
    assert(partition_terms(399, 7) == 6682870124488174362);
    lemma_partition_at_373();
    assert(partition_terms(399, 8) == 5444812330369049277);
    lemma_partition_at_364();
    assert(partition_terms(399, 9) == 6139956043827995317);
    lemma_partition_at_359();
    assert(partition_terms(399, 10) == 6642913610333995337);
    lemma_partition_at_348();
    assert(partition_terms(399, 11) == 6398009072878612931);
    lemma_partition_at_342();
    assert(partition_terms(399, 12) == 6233371593712851887);
    lemma_partition_at_329();
    assert(partition_terms(399, 13) == 6302206479658925737);
    lemma_partition_at_322();
    assert(partition_terms(399, 14) == 6344954557694880433);
    lemma_partition_at_307();
    assert(partition_terms(399, 15) == 6329811604956023239);
    lemma_partition_at_299();
    assert(partition_terms(399, 16) == 6321191108680558214);
    lemma_partition_at_282();
    assert(partition_terms(399, 17) == 6323732061270603912);
    lemma_partition_at_273();
    assert(partition_terms(399, 18) == 6325044113071420127);
    lemma_partition_at_254();
    assert(partition_terms(399, 19) == 6324730221080113462);
    lemma_partition_at_244();
    assert(partition_terms(399, 20) == 6324585353387617017);
    lemma_partition_at_223();
    assert(partition_terms(399, 21) == 6324612505796542632);
    lemma_partition_at_212();
    assert(partition_terms(399, 22) == 6324623469503747891);
    lemma_partition_at_189();
    assert(partition_terms(399, 23) == 6324621942230148266);
    lemma_partition_at_177();
    assert(partition_terms(399, 24) == 6324621420114317071);
    lemma_partition_at_152();
    assert(partition_terms(399, 25) == 6324621469800605492);
    lemma_partition_at_139();
    assert(partition_terms(399, 26) == 6324621483411555387);
    lemma_partition_at_112();
    assert(partition_terms(399, 27) == 6324621482650553231);
    lemma_partition_at_98();
    assert(partition_terms(399, 28) == 6324621482500355095);
    lemma_partition_at_69();
    assert(partition_terms(399, 29) == 6324621482503909440);
    lemma_partition_at_54();
    assert(partition_terms(399, 30) == 6324621482504295595);
    lemma_partition_at_23();
    assert(partition_terms(399, 31) == 6324621482504294340);
    lemma_partition_at_7();
    assert(partition_terms(399, 32) == 6324621482504294325);
}

/// The recurrence at 400.
proof fn lemma_partition_at_400()
    ensures
        partition_number(400) == 6727090051741041926,
{
    lemma_pentagonal_values();
    lemma_partition_terms_stable(400, 32, 400);
    assert(partition_terms(400, 0) == 0);
    lemma_partition_at_399();
    assert(partition_terms(400, 1) == 6324621482504294325);
    lemma_partition_at_398();
    assert(partition_terms(400, 2) == 12270411597212168922);
    lemma_partition_at_395();
    assert(partition_terms(400, 3) == 7332538500423977267);
    lemma_partition_at_393();
    assert(partition_terms(400, 4) == 2971432329661693153);
    lemma_partition_at_388();
    assert(partition_terms(400, 5) == 6164139848095225979);
    lemma_partition_at_385();
    assert(partition_terms(400, 6) == 8809558188783989680);
    lemma_partition_at_378();
    assert(partition_terms(400, 7) == 7108388760808176155);
    lemma_partition_at_374();
    assert(partition_terms(400, 8) == 5788878161080702655);
    lemma_partition_at_365();
    assert(partition_terms(400, 9) == 6530311320964784339);
    lemma_partition_at_360();
    assert(partition_terms(400, 10) == 7066990391275475460);
    lemma_partition_at_349();
    assert(partition_terms(400, 11) == 6805411483924331335);
    lemma_partition_at_343();
    assert(partition_terms(400, 12) == 6629467924113908582);
    lemma_partition_at_330();
    assert(partition_terms(400, 13) == 6703121211975758921);
    lemma_partition_at_323();
    assert(partition_terms(400, 14) == 6748893570519336949);
    lemma_partition_at_308();
    assert(partition_terms(400, 15) == 6732653783983507286);
    lemma_partition_at_300();
    assert(partition_terms(400, 16) == 6723400701046783684);
    lemma_partition_at_283();
    assert(partition_terms(400, 17) == 6726133574230331219);
    lemma_partition_at_274();
    assert(partition_terms(400, 18) == 6727546323795504669);
    lemma_partition_at_255();
    assert(partition_terms(400, 19) == 6727207469531255989);
    lemma_partition_at_245();
    assert(partition_terms(400, 20) == 6727050851118728043);
    lemma_partition_at_224();
    assert(partition_terms(400, 21) == 6727080305668669793);
    lemma_partition_at_213();
    assert(partition_terms(400, 22) == 6727092222349906071);
    lemma_partition_at_190();
    assert(partition_terms(400, 23) == 6727090554622501978);
    lemma_partition_at_178();
    assert(partition_terms(400, 24) == 6727089982920896323);
    lemma_partition_at_153();
    assert(partition_terms(400, 25) == 6727090037691232647);
    lemma_partition_at_140();
    assert(partition_terms(400, 26) == 6727090052757110782);
    lemma_partition_at_113();
    assert(partition_terms(400, 27) == 6727090051905734154);
    lemma_partition_at_99();
    assert(partition_terms(400, 28) == 6727090051736504279);
    lemma_partition_at_70();
    assert(partition_terms(400, 29) == 6727090051740592247);
    lemma_partition_at_55();
    assert(partition_terms(400, 30) == 6727090051741043523);
    lemma_partition_at_24();
    assert(partition_terms(400, 31) == 6727090051741041948);
    lemma_partition_at_8();
    assert(partition_terms(400, 32) == 6727090051741041926);
}

/// The recurrence at 401.
proof fn lemma_partition_at_401()
    ensures
        partition_number(401) == 7154640222653942321,
{
    lemma_pentagonal_values();
    lemma_partition_terms_stable(401, 32, 401);
    assert(partition_terms(401, 0) == 0);
    lemma_partition_at_400();
    assert(partition_terms(401, 1) == 6727090051741041926);
    lemma_partition_at_399();
    assert(partition_terms(401, 2) == 13051711534245336251);
    lemma_partition_at_396();
    assert(partition_terms(401, 3) == 7798046409828361088);
    lemma_partition_at_394();
    assert(partition_terms(401, 4) == 3157333285128737573);
    lemma_partition_at_389();
    assert(partition_terms(401, 5) == 6556037326486897848);
    lemma_partition_at_386();
    assert(partition_terms(401, 6) == 9372796829704840640);
    lemma_partition_at_379();
    assert(partition_terms(401, 7) == 7560440329965367690);
    lemma_partition_at_375();
    assert(partition_terms(401, 8) == 6154232883403883636);
    lemma_partition_at_366();
    assert(partition_terms(401, 9) == 6944971003053294955);
    lemma_partition_at_361();
    assert(partition_terms(401, 10) == 7517583061951332514);
    lemma_partition_at_350();
    assert(partition_terms(401, 11) == 7238219733467630362);
    lemma_partition_at_344();
    assert(partition_terms(401, 12) == 7050211086415337382);
    lemma_partition_at_331();
    assert(partition_terms(401, 13) == 7129012341718003997);
    lemma_partition_at_324();
    assert(partition_terms(401, 14) == 7178017985353241872);
    lemma_partition_at_309();
    assert(partition_terms(401, 15) == 7160603805220094577);
    lemma_partition_at_301();
    assert(partition_terms(401, 16) == 7150672832827691076);
    lemma_partition_at_284();
    assert(partition_terms(401, 17) == 7153611762621620631);
    lemma_partition_at_275();
    assert(partition_terms(401, 18) == 7155132743114471806);
    lemma_partition_at_256();
    assert(partition_terms(401, 19) == 7154766993547601024);
    lemma_partition_at_246();
    assert(partition_terms(401, 20) == 7154597696825209470);
    lemma_partition_at_225();
    assert(partition_terms(401, 21) == 7154629643215905627);
    lemma_partition_at_214();
    assert(partition_terms(401, 22) == 7154642593311831522);
    lemma_partition_at_191();
    assert(partition_terms(401, 23) == 7154640772610730870);
    lemma_partition_at_179();
    assert(partition_terms(401, 24) == 7154640146763977750);
    lemma_partition_at_154();
    assert(partition_terms(401, 25) == 7154640207120651030);
    lemma_partition_at_141();
    assert(partition_terms(401, 26) == 7154640223791340238);
    lemma_partition_at_114();
    assert(partition_terms(401, 27) == 7154640222839289573);
    lemma_partition_at_100();
    assert(partition_terms(401, 28) == 7154640222648720281);
    lemma_partition_at_71();
    assert(partition_terms(401, 29) == 7154640222653417486);
    lemma_partition_at_56();
    assert(partition_terms(401, 30) == 7154640222653944309);
    lemma_partition_at_25();
    assert(partition_terms(401, 31) == 7154640222653942351);
    lemma_partition_at_9();
    assert(partition_terms(401, 32) == 7154640222653942321);
}

/// The recurrence at 402.
proof fn lemma_partition_at_402()
    ensures
        partition_number(402) == 7608802843339879269,
{
    lemma_pentagonal_values();
    lemma_partition_terms_stable(402, 32, 402);
    assert(partition_terms(402, 0) == 0);
    lemma_partition_at_401();
    assert(partition_terms(402, 1) == 7154640222653942321);
    lemma_partition_at_400();
    assert(partition_terms(402, 2) == 13881730274394984247);
    lemma_partition_at_397();
    assert(partition_terms(402, 3) == 8292497071799579759);
    lemma_partition_at_395();
    assert(partition_terms(402, 4) == 3354623975011388104);
    lemma_partition_at_390();
    assert(partition_terms(402, 5) == 6972336738878992527);
    lemma_partition_at_387();
    assert(partition_terms(402, 6) == 9971301186615444721);
    lemma_partition_at_380();
    assert(partition_terms(402, 7) == 8040645114264978909);
    lemma_partition_at_376();
    assert(partition_terms(402, 8) == 6542166370674397828);
    lemma_partition_at_367();
    assert(partition_terms(402, 9) == 7385417159236926255);
    lemma_partition_at_362();
    assert(partition_terms(402, 10) == 7996315562988810356);
    lemma_partition_at_351();
    assert(partition_terms(402, 11) == 7697985499926052280);
    lemma_partition_at_345();
    assert(partition_terms(402, 12) == 7497102943638369121);
    lemma_partition_at_332();
    assert(partition_terms(402, 13) == 7581403759274594240);
    lemma_partition_at_325();
    assert(partition_terms(402, 14) == 7633865803503422881);
    lemma_partition_at_310();
    assert(partition_terms(402, 15) == 7615194315203822517);
    lemma_partition_at_302();
    assert(partition_terms(402, 16) == 7604536983971273678);
    lemma_partition_at_285();
    assert(partition_terms(402, 17) == 7607697121838422675);
    lemma_partition_at_276();
    assert(partition_terms(402, 18) == 7609334415807759846);
    lemma_partition_at_257();
    assert(partition_terms(402, 19) == 7608939692131104489);
    lemma_partition_at_247();
    assert(partition_terms(402, 20) == 7608756718241250463);
    lemma_partition_at_226();
    assert(partition_terms(402, 21) == 7608791361367572982);
    lemma_partition_at_215();
    assert(partition_terms(402, 22) == 7608805431913272269);
    lemma_partition_at_192();
    assert(partition_terms(402, 23) == 7608803444636415906);
    lemma_partition_at_180();
    assert(partition_terms(402, 24) == 7608802759679024970);
    lemma_partition_at_155();
    assert(partition_terms(402, 25) == 7608802826172207067);
    lemma_partition_at_142();
    assert(partition_terms(402, 26) == 7608802844612500387);
    lemma_partition_at_115();
    assert(partition_terms(402, 27) == 7608802843548355936);
    lemma_partition_at_101();
    assert(partition_terms(402, 28) == 7608802843333874810);
    lemma_partition_at_72();
    assert(partition_terms(402, 29) == 7608802843339267593);
    lemma_partition_at_57();
    assert(partition_terms(402, 30) == 7608802843339881747);
    lemma_partition_at_26();
    assert(partition_terms(402, 31) == 7608802843339879311);
    lemma_partition_at_10();
    assert(partition_terms(402, 32) == 7608802843339879269);
}

/// The recurrence at 403.
proof fn lemma_partition_at_403()
    ensures
        partition_number(403) == 8091200276484465581,
{
    lemma_pentagonal_values();
    lemma_partition_terms_stable(403, 32, 403);
    assert(partition_terms(403, 0) == 0);
    lemma_partition_at_402();
    assert(partition_terms(403, 1) == 7608802843339879269);
    lemma_partition_at_401();
    assert(partition_terms(403, 2) == 14763443065993821590);
    lemma_partition_at_398();
    assert(partition_terms(403, 3) == 8817652951285946993);
    lemma_partition_at_396();
    assert(partition_terms(403, 4) == 3563987826868971830);
    lemma_partition_at_391();
    assert(partition_terms(403, 5) == 7414526261536401016);
    lemma_partition_at_388();
    assert(partition_terms(403, 6) == 10607233779969933842);
    lemma_partition_at_381();
    assert(partition_terms(403, 7) == 8550720304633300037);
    lemma_partition_at_377();
    assert(partition_terms(403, 8) == 6954045030142543246);
    lemma_partition_at_368();
    assert(partition_terms(403, 9) == 7853220378538631595);
    lemma_partition_at_363();
    assert(partition_terms(403, 10) == 8504909258535838554);
    lemma_partition_at_352();
    assert(partition_terms(403, 11) == 8186353284747509470);
    lemma_partition_at_346();
    assert(partition_terms(403, 12) == 7971734985004223171);
    lemma_partition_at_333();
    assert(partition_terms(403, 13) == 8061910419984772794);
    lemma_partition_at_326();
    assert(partition_terms(403, 14) == 8118067022097647083);
    lemma_partition_at_311();
    assert(partition_terms(403, 15) == 8098049595335070138);
    lemma_partition_at_303();
    assert(partition_terms(403, 16) == 8086614053257248034);
    lemma_partition_at_286();
    assert(partition_terms(403, 17) == 8090011637269234807);
    lemma_partition_at_277();
    assert(partition_terms(403, 18) == 8091773915702292076);
    lemma_partition_at_258();
    assert(partition_terms(403, 19) == 8091347982617882720);
    lemma_partition_at_248();
    assert(partition_terms(403, 20) == 8091150256101201048);
    lemma_partition_at_227();
    assert(partition_terms(403, 21) == 8091187817234783618);
    lemma_partition_at_216();
    assert(partition_terms(403, 22) == 8091203102386032099);
    lemma_partition_at_193();
    assert(partition_terms(403, 23) == 8091200933758926630);
    lemma_partition_at_181();
    assert(partition_terms(403, 24) == 8091200184284514849);
    lemma_partition_at_156();
    assert(partition_terms(403, 25) == 8091200257516758608);
    lemma_partition_at_143();
    assert(partition_terms(403, 26) == 8091200277907741365);
    lemma_partition_at_116();
    assert(partition_terms(403, 27) == 8091200276718833117);
    lemma_partition_at_102();
    assert(partition_terms(403, 28) == 8091200276477567738);
    lemma_partition_at_73();
    assert(partition_terms(403, 29) == 8091200276483753427);
    lemma_partition_at_58();
    assert(partition_terms(403, 30) == 8091200276484468647);
    lemma_partition_at_27();
    assert(partition_terms(403, 31) == 8091200276484465637);
    lemma_partition_at_11();
    assert(partition_terms(403, 32) == 8091200276484465581);
}

/// The recurrence at 404.
proof fn lemma_partition_at_404()
    ensures
        partition_number(404) == 8603551759348655060,
{
    lemma_pentagonal_values();
    lemma_partition_terms_stable(404, 32, 404);
    assert(partition_terms(404, 0) == 0);
    lemma_partition_at_403();
    assert(partition_terms(404, 1) == 8091200276484465581);
    lemma_partition_at_402();
    assert(partition_terms(404, 2) == 15700003119824344850);
    lemma_partition_at_399();
    assert(partition_terms(404, 3) == 9375381637320050525);
    lemma_partition_at_397();
    assert(partition_terms(404, 4) == 3786148434724646037);
    lemma_partition_at_392();
    assert(partition_terms(404, 5) == 7884182970351240828);
    lemma_partition_at_389();
    assert(partition_terms(404, 6) == 11282887011709401103);
    lemma_partition_at_382();
    assert(partition_terms(404, 7) == 9092485679285635972);
    lemma_partition_at_378();
    assert(partition_terms(404, 8) == 7391316251309822447);
    lemma_partition_at_369();
    assert(partition_terms(404, 9) == 8350044949222160492);
    lemma_partition_at_364();
    assert(partition_terms(404, 10) == 9045188662681106532);
    lemma_partition_at_353();
    assert(partition_terms(404, 11) == 8705065852632529104);
    lemma_partition_at_347();
    assert(partition_terms(404, 12) == 8475793565761311954);
    lemma_partition_at_334();
    assert(partition_terms(404, 13) == 8572243675953514714);
    lemma_partition_at_327();
    assert(partition_terms(404, 14) == 8632349025793181258);
    lemma_partition_at_312();
    assert(partition_terms(404, 15) == 8610890929755828367);
    lemma_partition_at_304();
    assert(partition_terms(404, 16) == 8598621711736598902);
    lemma_partition_at_287();
    assert(partition_terms(404, 17) == 8602274142572669955);
    lemma_partition_at_278();
    assert(partition_terms(404, 18) == 8604170706676261539);
    lemma_partition_at_259();
    assert(partition_terms(404, 19) == 8603711160925812864);
    lemma_partition_at_249();
    assert(partition_terms(404, 20) == 8603497524005992239);
    lemma_partition_at_228();
    assert(partition_terms(404, 21) == 8603538242069619601);
    lemma_partition_at_217();
    assert(partition_terms(404, 22) == 8603554843667727515);
    lemma_partition_at_194();
    assert(partition_terms(404, 23) == 8603552477644985670);
    lemma_partition_at_182();
    assert(partition_terms(404, 24) == 8603551657768077347);
    lemma_partition_at_157();
    assert(partition_terms(404, 25) == 8603551738399042116);
    lemma_partition_at_144();
    assert(partition_terms(404, 26) == 8603551760939696561);
    lemma_partition_at_117();
    assert(partition_terms(404, 27) == 8603551759611986485);
    lemma_partition_at_103();
    assert(partition_terms(404, 28) == 8603551759340737535);
    lemma_partition_at_74();
    assert(partition_terms(404, 29) == 8603551759347827035);
    lemma_partition_at_59();
    assert(partition_terms(404, 30) == 8603551759348658855);
    lemma_partition_at_28();
    assert(partition_terms(404, 31) == 8603551759348655137);
    lemma_partition_at_12();
    assert(partition_terms(404, 32) == 8603551759348655060);
}

/// The recurrence at 405.
proof fn lemma_partition_at_405()
    ensures
        partition_number(405) == 9147679068859117602,
{
    lemma_pentagonal_values();
    lemma_partition_terms_stable(405, 32, 405);
    assert(partition_terms(405, 0) == 0);
    lemma_partition_at_404();
    assert(partition_terms(405, 1) == 8603551759348655060);
    lemma_partition_at_403();
    assert(partition_terms(405, 2) == 16694752035833120641);
    lemma_partition_at_400();
    assert(partition_terms(405, 3) == 9967661984092078715);
    lemma_partition_at_398();
    assert(partition_terms(405, 4) == 4021871869384204118);
    lemma_partition_at_393();
    assert(partition_terms(405, 5) == 8382978040146488232);
    lemma_partition_at_390();
    assert(partition_terms(405, 6) == 12000690804014092655);
    lemma_partition_at_383();
    assert(partition_terms(405, 7) == 9667869605470200319);
    lemma_partition_at_379();
    assert(partition_terms(405, 8) == 7855513105730727369);
    lemma_partition_at_370();
    assert(partition_terms(405, 9) == 8877654334098072731);
    lemma_partition_at_365();
    assert(partition_terms(405, 10) == 9619087493982154415);
    lemma_partition_at_354();
    assert(partition_terms(405, 11) == 9255969981934044410);
    lemma_partition_at_348();
    assert(partition_terms(405, 12) == 9011065444478662004);
    lemma_partition_at_335();
    assert(partition_terms(405, 13) == 9114216910800397329);
    lemma_partition_at_328();
    assert(partition_terms(405, 14) == 9178542285409511879);
    lemma_partition_at_313();
    assert(partition_terms(405, 15) == 9155542278754024542);
    lemma_partition_at_305();
    assert(partition_terms(405, 16) == 9142380060858966838);
    lemma_partition_at_288();
    assert(partition_terms(405, 17) == 9146305983020456260);
    lemma_partition_at_279();
    assert(partition_terms(405, 18) == 9148346808873031335);
    lemma_partition_at_260();
    assert(partition_terms(405, 19) == 9147851066938270489);
    lemma_partition_at_250();
    assert(partition_terms(405, 20) == 9147620273383905808);
    lemma_partition_at_229();
    assert(partition_terms(405, 21) == 9147664406318790063);
    lemma_partition_at_218();
    assert(partition_terms(405, 22) == 9147682434501306734);
    lemma_partition_at_195();
    assert(partition_terms(405, 23) == 9147679853661093761);
    lemma_partition_at_183();
    assert(partition_terms(405, 24) == 9147678956976276234);
    lemma_partition_at_158();
    assert(partition_terms(405, 25) == 9147679045728055036);
    lemma_partition_at_145();
    assert(partition_terms(405, 26) == 9147679070636913045);
    lemma_partition_at_118();
    assert(partition_terms(405, 27) == 9147679069154838902);
    lemma_partition_at_104();
    assert(partition_terms(405, 28) == 9147679068850037537);
    lemma_partition_at_75();
    assert(partition_terms(405, 29) == 9147679068858155801);
    lemma_partition_at_60();
    assert(partition_terms(405, 30) == 9147679068859122268);
    lemma_partition_at_29();
    assert(partition_terms(405, 31) == 9147679068859117703);
    lemma_partition_at_13();
    assert(partition_terms(405, 32) == 9147679068859117602);
}

/// The recurrence at 406.
proof fn lemma_partition_at_406()
    ensures
        partition_number(406) == 9725512513742021729,
{
    lemma_pentagonal_values();
    lemma_partition_terms_stable(406, 32, 406);
    assert(partition_terms(406, 0) == 0);
    lemma_partition_at_405();
    assert(partition_terms(406, 1) == 9147679068859117602);
    lemma_partition_at_404();
    assert(partition_terms(406, 2) == 17751230828207772662);
    lemma_partition_at_401();
    assert(partition_terms(406, 3) == 10596590605553830341);
    lemma_partition_at_399();
    assert(partition_terms(406, 4) == 4271969123049536016);
    lemma_partition_at_394();
    assert(partition_terms(406, 5) == 8912682247749159531);
    lemma_partition_at_391();
    assert(partition_terms(406, 6) == 12763220682416588717);
    lemma_partition_at_384();
    assert(partition_terms(406, 7) == 10278915388151170537);
    lemma_partition_at_380();
    assert(partition_terms(406, 8) == 8348259315800704725);
    lemma_partition_at_371();
    assert(partition_terms(406, 9) == 9437916960225104507);
    lemma_partition_at_366();
    assert(partition_terms(406, 10) == 10228655079874515826);
    lemma_partition_at_355();
    assert(partition_terms(406, 11) == 9841022546955486603);
    lemma_partition_at_349();
    assert(partition_terms(406, 12) == 9579443639604342478);
    lemma_partition_at_336();
    assert(partition_terms(406, 13) == 9689751500029635250);
    lemma_partition_at_329();
    assert(partition_terms(406, 14) == 9758586385975709100);
    lemma_partition_at_314();
    assert(partition_terms(406, 15) == 9733936279824878610);
    lemma_partition_at_306();
    assert(partition_terms(406, 16) == 9719817617159598605);
    lemma_partition_at_289();
    assert(partition_terms(406, 17) == 9724037005688185700);
    lemma_partition_at_280();
    assert(partition_terms(406, 18) == 9726232791999868216);
    lemma_partition_at_261();
    assert(partition_terms(406, 19) == 9725698076936959607);
    lemma_partition_at_251();
    assert(partition_terms(406, 20) == 9725448785485791048);
    lemma_partition_at_230();
    assert(partition_terms(406, 21) == 9725496611725536968);
    lemma_partition_at_219();
    assert(partition_terms(406, 22) == 9725516185581698113);
    lemma_partition_at_196();
    assert(partition_terms(406, 23) == 9725513371010710522);
    lemma_partition_at_184();
    assert(partition_terms(406, 24) == 9725512390547830092);
    lemma_partition_at_159();
    assert(partition_terms(406, 25) == 9725512488210558647);
    lemma_partition_at_146();
    assert(partition_terms(406, 26) == 9725512515727611246);
    lemma_partition_at_119();
    assert(partition_terms(406, 27) == 9725512514073942581);
    lemma_partition_at_105();
    assert(partition_terms(406, 28) == 9725512513731616872);
    lemma_partition_at_76();
    assert(partition_terms(406, 29) == 9725512513740905963);
    lemma_partition_at_61();
    assert(partition_terms(406, 30) == 9725512513742027468);
    lemma_partition_at_30();
    assert(partition_terms(406, 31) == 9725512513742021864);
    lemma_partition_at_14();
    assert(partition_terms(406, 32) == 9725512513742021729);
}

/// Up to `MAX_PART` the partition function fits 64 bits.
pub proof fn lemma_partition_fits(n: int)
    requires
        n <= 406,
    ensures
        0 <= partition_number(n) < 0x1_0000_0000_0000_0000,
{
    if n == 0 {
        lemma_partition_at_0();
    } else if n == 1 {
        lemma_partition_at_1();
    } else if n == 2 {
        lemma_partition_at_2();
    } else if n == 3 {
        lemma_partition_at_3();
    } else if n == 4 {
        lemma_partition_at_4();
    } else if n == 5 {
        lemma_partition_at_5();
    } else if n == 6 {
        lemma_partition_at_6();
    } else if n == 7 {
        lemma_partition_at_7();
    } else if n == 8 {
        lemma_partition_at_8();
    } else if n == 9 {
        lemma_partition_at_9();
    } else if n == 10 {
        lemma_partition_at_10();
    } else if n == 11 {
        lemma_partition_at_11();
    } else if n == 12 {
        lemma_partition_at_12();
    } else if n == 13 {
        lemma_partition_at_13();
    } else if n == 14 {
        lemma_partition_at_14();
    } else if n == 15 {
        lemma_partition_at_15();
    } else if n == 16 {
        lemma_partition_at_16();
    } else if n == 17 {
        lemma_partition_at_17();
    } else if n == 18 {
        lemma_partition_at_18();
    } else if n == 19 {
        lemma_partition_at_19();
    } else if n == 20 {
        lemma_partition_at_20();
    } else if n == 21 {
        lemma_partition_at_21();
    } else if n == 22 {
        lemma_partition_at_22();
    } else if n == 23 {
        lemma_partition_at_23();
    } else if n == 24 {
        lemma_partition_at_24();
    } else if n == 25 {
        lemma_partition_at_25();
    } else if n == 26 {
        lemma_partition_at_26();
    } else if n == 27 {
        lemma_partition_at_27();
    } else if n == 28 {
        lemma_partition_at_28();
    } else if n == 29 {
        lemma_partition_at_29();
    } else if n == 30 {
        lemma_partition_at_30();
    } else if n == 31 {
        lemma_partition_at_31();
    } else if n == 32 {
        lemma_partition_at_32();
    } else if n == 33 {
        lemma_partition_at_33();
    } else if n == 34 {
        lemma_partition_at_34();
    } else if n == 35 {
        lemma_partition_at_35();
    } else if n == 36 {
        lemma_partition_at_36();
    } else if n == 37 {
        lemma_partition_at_37();
    } else if n == 38 {
        lemma_partition_at_38();
    } else if n == 39 {
        lemma_partition_at_39();
    } else if n == 40 {
        lemma_partition_at_40();
    } else if n == 41 {
        lemma_partition_at_41();
    } else if n == 42 {
        lemma_partition_at_42();
    } else if n == 43 {
        lemma_partition_at_43();
    } else if n == 44 {
        lemma_partition_at_44();
    } else if n == 45 {
        lemma_partition_at_45();
    } else if n == 46 {
        lemma_partition_at_46();
    } else if n == 47 {
        lemma_partition_at_47();
    } else if n == 48 {
        lemma_partition_at_48();
    } else if n == 49 {
        lemma_partition_at_49();
    } else if n == 50 {
        lemma_partition_at_50();
    } else if n == 51 {
        lemma_partition_at_51();
    } else if n == 52 {
        lemma_partition_at_52();
    } else if n == 53 {
        lemma_partition_at_53();
    } else if n == 54 {
        lemma_partition_at_54();
    } else if n == 55 {
        lemma_partition_at_55();
    } else if n == 56 {
        lemma_partition_at_56();
    } else if n == 57 {
        lemma_partition_at_57();
    } else if n == 58 {
        lemma_partition_at_58();
    } else if n == 59 {
        lemma_partition_at_59();
    } else if n == 60 {
        lemma_partition_at_60();
    } else if n == 61 {
        lemma_partition_at_61();
    } else if n == 62 {
        lemma_partition_at_62();
    } else if n == 63 {
        lemma_partition_at_63();
    } else if n == 64 {
        lemma_partition_at_64();
    } else if n == 65 {
        lemma_partition_at_65();
    } else if n == 66 {
        lemma_partition_at_66();
    } else if n == 67 {
        lemma_partition_at_67();
    } else if n == 68 {
        lemma_partition_at_68();
    } else if n == 69 {
        lemma_partition_at_69();
    } else if n == 70 {
        lemma_partition_at_70();
    } else if n == 71 {
        lemma_partition_at_71();
    } else if n == 72 {
        lemma_partition_at_72();
    } else if n == 73 {
        lemma_partition_at_73();
    } else if n == 74 {
        lemma_partition_at_74();
    } else if n == 75 {
        lemma_partition_at_75();
    } else if n == 76 {
        lemma_partition_at_76();
    } else if n == 77 {
        lemma_partition_at_77();
    } else if n == 78 {
        lemma_partition_at_78();
    } else if n == 79 {
        lemma_partition_at_79();
    } else if n == 80 {
        lemma_partition_at_80();
    } else if n == 81 {
        lemma_partition_at_81();
    } else if n == 82 {
        lemma_partition_at_82();
    } else if n == 83 {
        lemma_partition_at_83();
    } else if n == 84 {
        lemma_partition_at_84();
    } else if n == 85 {
        lemma_partition_at_85();
    } else if n == 86 {
        lemma_partition_at_86();
    } else if n == 87 {
        lemma_partition_at_87();
    } else if n == 88 {
        lemma_partition_at_88();
    } else if n == 89 {
        lemma_partition_at_89();
    } else if n == 90 {
        lemma_partition_at_90();
    } else if n == 91 {
        lemma_partition_at_91();
    } else if n == 92 {
        lemma_partition_at_92();
    } else if n == 93 {
        lemma_partition_at_93();
    } else if n == 94 {
        lemma_partition_at_94();
    } else if n == 95 {
        lemma_partition_at_95();
    } else if n == 96 {
        lemma_partition_at_96();
    } else if n == 97 {
        lemma_partition_at_97();
    } else if n == 98 {
        lemma_partition_at_98();
    } else if n == 99 {
        lemma_partition_at_99();
    } else if n == 100 {
        lemma_partition_at_100();
    } else if n == 101 {
        lemma_partition_at_101();
    } else if n == 102 {
        lemma_partition_at_102();
    } else if n == 103 {
        lemma_partition_at_103();
    } else if n == 104 {
        lemma_partition_at_104();
    } else if n == 105 {
        lemma_partition_at_105();
    } else if n == 106 {
        lemma_partition_at_106();
    } else if n == 107 {
        lemma_partition_at_107();
    } else if n == 108 {
        lemma_partition_at_108();
    } else if n == 109 {
        lemma_partition_at_109();
    } else if n == 110 {
        lemma_partition_at_110();
    } else if n == 111 {
        lemma_partition_at_111();
    } else if n == 112 {
        lemma_partition_at_112();
    } else if n == 113 {
        lemma_partition_at_113();
    } else if n == 114 {
        lemma_partition_at_114();
    } else if n == 115 {
        lemma_partition_at_115();
    } else if n == 116 {
        lemma_partition_at_116();
    } else if n == 117 {
        lemma_partition_at_117();
    } else if n == 118 {
        lemma_partition_at_118();
    } else if n == 119 {
        lemma_partition_at_119();
    } else if n == 120 {
        lemma_partition_at_120();
    } else if n == 121 {
        lemma_partition_at_121();
    } else if n == 122 {
        lemma_partition_at_122();
    } else if n == 123 {
        lemma_partition_at_123();
    } else if n == 124 {
        lemma_partition_at_124();
    } else if n == 125 {
        lemma_partition_at_125();
    } else if n == 126 {
        lemma_partition_at_126();
    } else if n == 127 {
        lemma_partition_at_127();
    } else if n == 128 {
        lemma_partition_at_128();
    } else if n == 129 {
        lemma_partition_at_129();
    } else if n == 130 {
        lemma_partition_at_130();
    } else if n == 131 {
        lemma_partition_at_131();
    } else if n == 132 {
        lemma_partition_at_132();
    } else if n == 133 {
        lemma_partition_at_133();
    } else if n == 134 {
        lemma_partition_at_134();
    } else if n == 135 {
        lemma_partition_at_135();
    } else if n == 136 {
        lemma_partition_at_136();
    } else if n == 137 {
        lemma_partition_at_137();
    } else if n == 138 {
        lemma_partition_at_138();
    } else if n == 139 {
        lemma_partition_at_139();
    } else if n == 140 {
        lemma_partition_at_140();
    } else if n == 141 {
        lemma_partition_at_141();
    } else if n == 142 {
        lemma_partition_at_142();
    } else if n == 143 {
        lemma_partition_at_143();
    } else if n == 144 {
        lemma_partition_at_144();
    } else if n == 145 {
        lemma_partition_at_145();
    } else if n == 146 {
        lemma_partition_at_146();
    } else if n == 147 {
        lemma_partition_at_147();
    } else if n == 148 {
        lemma_partition_at_148();
    } else if n == 149 {
        lemma_partition_at_149();
    } else if n == 150 {
        lemma_partition_at_150();
    } else if n == 151 {
        lemma_partition_at_151();
    } else if n == 152 {
        lemma_partition_at_152();
    } else if n == 153 {
        lemma_partition_at_153();
    } else if n == 154 {
        lemma_partition_at_154();
    } else if n == 155 {
        lemma_partition_at_155();
    } else if n == 156 {
        lemma_partition_at_156();
    } else if n == 157 {
        lemma_partition_at_157();
    } else if n == 158 {
        lemma_partition_at_158();
    } else if n == 159 {
        lemma_partition_at_159();
    } else if n == 160 {
        lemma_partition_at_160();
    } else if n == 161 {
        lemma_partition_at_161();
    } else if n == 162 {
        lemma_partition_at_162();
    } else if n == 163 {
        lemma_partition_at_163();
    } else if n == 164 {
        lemma_partition_at_164();
    } else if n == 165 {
        lemma_partition_at_165();
    } else if n == 166 {
        lemma_partition_at_166();
    } else if n == 167 {
        lemma_partition_at_167();
    } else if n == 168 {
        lemma_partition_at_168();
    } else if n == 169 {
        lemma_partition_at_169();
    } else if n == 170 {
        lemma_partition_at_170();
    } else if n == 171 {
        lemma_partition_at_171();
    } else if n == 172 {
        lemma_partition_at_172();
    } else if n == 173 {
        lemma_partition_at_173();
    } else if n == 174 {
        lemma_partition_at_174();
    } else if n == 175 {
        lemma_partition_at_175();
    } else if n == 176 {
        lemma_partition_at_176();
    } else if n == 177 {
        lemma_partition_at_177();
    } else if n == 178 {
        lemma_partition_at_178();
    } else if n == 179 {
        lemma_partition_at_179();
    } else if n == 180 {
        lemma_partition_at_180();
    } else if n == 181 {
        lemma_partition_at_181();
    } else if n == 182 {
        lemma_partition_at_182();
    } else if n == 183 {
        lemma_partition_at_183();
    } else if n == 184 {
        lemma_partition_at_184();
    } else if n == 185 {
        lemma_partition_at_185();
    } else if n == 186 {
        lemma_partition_at_186();
    } else if n == 187 {
        lemma_partition_at_187();
    } else if n == 188 {
        lemma_partition_at_188();
    } else if n == 189 {
        lemma_partition_at_189();
    } else if n == 190 {
        lemma_partition_at_190();
    } else if n == 191 {
        lemma_partition_at_191();
    } else if n == 192 {
        lemma_partition_at_192();
    } else if n == 193 {
        lemma_partition_at_193();
    } else if n == 194 {
        lemma_partition_at_194();
    } else if n == 195 {
        lemma_partition_at_195();
    } else if n == 196 {
        lemma_partition_at_196();
    } else if n == 197 {
        lemma_partition_at_197();
    } else if n == 198 {
        lemma_partition_at_198();
    } else if n == 199 {
        lemma_partition_at_199();
    } else if n == 200 {
        lemma_partition_at_200();
    } else if n == 201 {
        lemma_partition_at_201();
    } else if n == 202 {
        lemma_partition_at_202();
    } else if n == 203 {
        lemma_partition_at_203();
    } else if n == 204 {
        lemma_partition_at_204();
    } else if n == 205 {
        lemma_partition_at_205();
    } else if n == 206 {
        lemma_partition_at_206();
    } else if n == 207 {
        lemma_partition_at_207();
    } else if n == 208 {
        lemma_partition_at_208();
    } else if n == 209 {
        lemma_partition_at_209();
    } else if n == 210 {
        lemma_partition_at_210();
    } else if n == 211 {
        lemma_partition_at_211();
    } else if n == 212 {
        lemma_partition_at_212();
    } else if n == 213 {
        lemma_partition_at_213();
    } else if n == 214 {
        lemma_partition_at_214();
    } else if n == 215 {
        lemma_partition_at_215();
    } else if n == 216 {
        lemma_partition_at_216();
    } else if n == 217 {
        lemma_partition_at_217();
    } else if n == 218 {
        lemma_partition_at_218();
    } else if n == 219 {
        lemma_partition_at_219();
    } else if n == 220 {
        lemma_partition_at_220();
    } else if n == 221 {
        lemma_partition_at_221();
    } else if n == 222 {
        lemma_partition_at_222();
    } else if n == 223 {
        lemma_partition_at_223();
    } else if n == 224 {
        lemma_partition_at_224();
    } else if n == 225 {
        lemma_partition_at_225();
    } else if n == 226 {
        lemma_partition_at_226();
    } else if n == 227 {
        lemma_partition_at_227();
    } else if n == 228 {
        lemma_partition_at_228();
    } else if n == 229 {
        lemma_partition_at_229();
    } else if n == 230 {
        lemma_partition_at_230();
    } else if n == 231 {
        lemma_partition_at_231();
    } else if n == 232 {
        lemma_partition_at_232();
    } else if n == 233 {
        lemma_partition_at_233();
    } else if n == 234 {
        lemma_partition_at_234();
    } else if n == 235 {
        lemma_partition_at_235();
    } else if n == 236 {
        lemma_partition_at_236();
    } else if n == 237 {
        lemma_partition_at_237();
    } else if n == 238 {
        lemma_partition_at_238();
    } else if n == 239 {
        lemma_partition_at_239();
    } else if n == 240 {
        lemma_partition_at_240();
    } else if n == 241 {
        lemma_partition_at_241();
    } else if n == 242 {
        lemma_partition_at_242();
    } else if n == 243 {
        lemma_partition_at_243();
    } else if n == 244 {
        lemma_partition_at_244();
    } else if n == 245 {
        lemma_partition_at_245();
    } else if n == 246 {
        lemma_partition_at_246();
    } else if n == 247 {
        lemma_partition_at_247();
    } else if n == 248 {
        lemma_partition_at_248();
    } else if n == 249 {
        lemma_partition_at_249();
    } else if n == 250 {
        lemma_partition_at_250();
    } else if n == 251 {
        lemma_partition_at_251();
    } else if n == 252 {
        lemma_partition_at_252();
    } else if n == 253 {
        lemma_partition_at_253();
    } else if n == 254 {
        lemma_partition_at_254();
    } else if n == 255 {
        lemma_partition_at_255();
    } else if n == 256 {
        lemma_partition_at_256();
    } else if n == 257 {
        lemma_partition_at_257();
    } else if n == 258 {
        lemma_partition_at_258();
    } else if n == 259 {
        lemma_partition_at_259();
    } else if n == 260 {
        lemma_partition_at_260();
    } else if n == 261 {
        lemma_partition_at_261();
    } else if n == 262 {
        lemma_partition_at_262();
    } else if n == 263 {
        lemma_partition_at_263();
    } else if n == 264 {
        lemma_partition_at_264();
    } else if n == 265 {
        lemma_partition_at_265();
    } else if n == 266 {
        lemma_partition_at_266();
    } else if n == 267 {
        lemma_partition_at_267();
    } else if n == 268 {
        lemma_partition_at_268();
    } else if n == 269 {
        lemma_partition_at_269();
    } else if n == 270 {
        lemma_partition_at_270();
    } else if n == 271 {
        lemma_partition_at_271();
    } else if n == 272 {
        lemma_partition_at_272();
    } else if n == 273 {
        lemma_partition_at_273();
    } else if n == 274 {
        lemma_partition_at_274();
    } else if n == 275 {
        lemma_partition_at_275();
    } else if n == 276 {
        lemma_partition_at_276();
    } else if n == 277 {
        lemma_partition_at_277();
    } else if n == 278 {
        lemma_partition_at_278();
    } else if n == 279 {
        lemma_partition_at_279();
    } else if n == 280 {
        lemma_partition_at_280();
    } else if n == 281 {
        lemma_partition_at_281();
    } else if n == 282 {
        lemma_partition_at_282();
    } else if n == 283 {
        lemma_partition_at_283();
    } else if n == 284 {
        lemma_partition_at_284();
    } else if n == 285 {
        lemma_partition_at_285();
    } else if n == 286 {
        lemma_partition_at_286();
    } else if n == 287 {
        lemma_partition_at_287();
    } else if n == 288 {
        lemma_partition_at_288();
    } else if n == 289 {
        lemma_partition_at_289();
    } else if n == 290 {
        lemma_partition_at_290();
    } else if n == 291 {
        lemma_partition_at_291();
    } else if n == 292 {
        lemma_partition_at_292();
    } else if n == 293 {
        lemma_partition_at_293();
    } else if n == 294 {
        lemma_partition_at_294();
    } else if n == 295 {
        lemma_partition_at_295();
    } else if n == 296 {
        lemma_partition_at_296();
    } else if n == 297 {
        lemma_partition_at_297();
    } else if n == 298 {
        lemma_partition_at_298();
    } else if n == 299 {
        lemma_partition_at_299();
    } else if n == 300 {
        lemma_partition_at_300();
    } else if n == 301 {
        lemma_partition_at_301();
    } else if n == 302 {
        lemma_partition_at_302();
    } else if n == 303 {
        lemma_partition_at_303();
    } else if n == 304 {
        lemma_partition_at_304();
    } else if n == 305 {
        lemma_partition_at_305();
    } else if n == 306 {
        lemma_partition_at_306();
    } else if n == 307 {
        lemma_partition_at_307();
    } else if n == 308 {
        lemma_partition_at_308();
    } else if n == 309 {
        lemma_partition_at_309();
    } else if n == 310 {
        lemma_partition_at_310();
    } else if n == 311 {
        lemma_partition_at_311();
    } else if n == 312 {
        lemma_partition_at_312();
    } else if n == 313 {
        lemma_partition_at_313();
    } else if n == 314 {
        lemma_partition_at_314();
    } else if n == 315 {
        lemma_partition_at_315();
    } else if n == 316 {
        lemma_partition_at_316();
    } else if n == 317 {
        lemma_partition_at_317();
    } else if n == 318 {
        lemma_partition_at_318();
    } else if n == 319 {
        lemma_partition_at_319();
    } else if n == 320 {
        lemma_partition_at_320();
    } else if n == 321 {
        lemma_partition_at_321();
    } else if n == 322 {
        lemma_partition_at_322();
    } else if n == 323 {
        lemma_partition_at_323();
    } else if n == 324 {
        lemma_partition_at_324();
    } else if n == 325 {
        lemma_partition_at_325();
    } else if n == 326 {
        lemma_partition_at_326();
    } else if n == 327 {
        lemma_partition_at_327();
    } else if n == 328 {
        lemma_partition_at_328();
    } else if n == 329 {
        lemma_partition_at_329();
    } else if n == 330 {
        lemma_partition_at_330();
    } else if n == 331 {
        lemma_partition_at_331();
    } else if n == 332 {
        lemma_partition_at_332();
    } else if n == 333 {
        lemma_partition_at_333();
    } else if n == 334 {
        lemma_partition_at_334();
    } else if n == 335 {
        lemma_partition_at_335();
    } else if n == 336 {
        lemma_partition_at_336();
    } else if n == 337 {
        lemma_partition_at_337();
    } else if n == 338 {
        lemma_partition_at_338();
    } else if n == 339 {
        lemma_partition_at_339();
    } else if n == 340 {
        lemma_partition_at_340();
    } else if n == 341 {
        lemma_partition_at_341();
    } else if n == 342 {
        lemma_partition_at_342();
    } else if n == 343 {
        lemma_partition_at_343();
    } else if n == 344 {
        lemma_partition_at_344();
    } else if n == 345 {
        lemma_partition_at_345();
    } else if n == 346 {
        lemma_partition_at_346();
    } else if n == 347 {
        lemma_partition_at_347();
    } else if n == 348 {
        lemma_partition_at_348();
    } else if n == 349 {
        lemma_partition_at_349();
    } else if n == 350 {
        lemma_partition_at_350();
    } else if n == 351 {
        lemma_partition_at_351();
    } else if n == 352 {
        lemma_partition_at_352();
    } else if n == 353 {
        lemma_partition_at_353();
    } else if n == 354 {
        lemma_partition_at_354();
    } else if n == 355 {
        lemma_partition_at_355();
    } else if n == 356 {
        lemma_partition_at_356();
    } else if n == 357 {
        lemma_partition_at_357();
    } else if n == 358 {
        lemma_partition_at_358();
    } else if n == 359 {
        lemma_partition_at_359();
    } else if n == 360 {
        lemma_partition_at_360();
    } else if n == 361 {
        lemma_partition_at_361();
    } else if n == 362 {
        lemma_partition_at_362();
    } else if n == 363 {
        lemma_partition_at_363();
    } else if n == 364 {
        lemma_partition_at_364();
    } else if n == 365 {
        lemma_partition_at_365();
    } else if n == 366 {
        lemma_partition_at_366();
    } else if n == 367 {
        lemma_partition_at_367();
    } else if n == 368 {
        lemma_partition_at_368();
    } else if n == 369 {
        lemma_partition_at_369();
    } else if n == 370 {
        lemma_partition_at_370();
    } else if n == 371 {
        lemma_partition_at_371();
    } else if n == 372 {
        lemma_partition_at_372();
    } else if n == 373 {
        lemma_partition_at_373();
    } else if n == 374 {
        lemma_partition_at_374();
    } else if n == 375 {
        lemma_partition_at_375();
    } else if n == 376 {
        lemma_partition_at_376();
    } else if n == 377 {
        lemma_partition_at_377();
    } else if n == 378 {
        lemma_partition_at_378();
    } else if n == 379 {
        lemma_partition_at_379();
    } else if n == 380 {
        lemma_partition_at_380();
    } else if n == 381 {
        lemma_partition_at_381();
    } else if n == 382 {
        lemma_partition_at_382();
    } else if n == 383 {
        lemma_partition_at_383();
    } else if n == 384 {
        lemma_partition_at_384();
    } else if n == 385 {
        lemma_partition_at_385();
    } else if n == 386 {
        lemma_partition_at_386();
    } else if n == 387 {
        lemma_partition_at_387();
    } else if n == 388 {
        lemma_partition_at_388();
    } else if n == 389 {
        lemma_partition_at_389();
    } else if n == 390 {
        lemma_partition_at_390();
    } else if n == 391 {
        lemma_partition_at_391();
    } else if n == 392 {
        lemma_partition_at_392();
    } else if n == 393 {
        lemma_partition_at_393();
    } else if n == 394 {
        lemma_partition_at_394();
    } else if n == 395 {
        lemma_partition_at_395();
    } else if n == 396 {
        lemma_partition_at_396();
    } else if n == 397 {
        lemma_partition_at_397();
    } else if n == 398 {
        lemma_partition_at_398();
    } else if n == 399 {
        lemma_partition_at_399();
    } else if n == 400 {
        lemma_partition_at_400();
    } else if n == 401 {
        lemma_partition_at_401();
    } else if n == 402 {
        lemma_partition_at_402();
    } else if n == 403 {
        lemma_partition_at_403();
    } else if n == 404 {
        lemma_partition_at_404();
    } else if n == 405 {
        lemma_partition_at_405();
    } else if n == 406 {
        lemma_partition_at_406();
    }
}

} // verus!
