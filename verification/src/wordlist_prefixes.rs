//! The wordlist's four-letter prefixes: read as numbers, they rise strictly
//! from each entry to the next, so no two entries share their first four
//! letters.

use vstd::prelude::*;

use crate::wordlist_data::{entry, key_digit};

verus! {

/// The first four letters of `w` read as a base-27 number, most significant
/// first, a position past the end counting 0: two words with different prefix
/// keys differ within their first four letters.
pub open spec fn prefix_key(w: Seq<char>) -> int {
    key_digit(w, 0) * 19683 + key_digit(w, 1) * 729 + key_digit(w, 2) * 27 + key_digit(w, 3)
}

/// Entries `0 .. n` each have a larger prefix key than the one before.
pub open spec fn prefixes_rise_upto(n: int) -> bool
    decreases n,
{
    if n <= 1 {
        true
    } else {
        &&& prefixes_rise_upto(n - 1)
        &&& prefix_key(entry(n - 2)) < prefix_key(entry(n - 1))
    }
}

#[verifier::rlimit(30)]
proof fn lemma_prefix_block_0()
    ensures
        prefixes_rise_upto(32),
{
    assert(prefixes_rise_upto(1));
    assert(prefixes_rise_upto(2)) by {
        reveal_strlit("abandon");
        reveal_strlit("ability");
    }
    assert(prefixes_rise_upto(3)) by {
        reveal_strlit("ability");
        reveal_strlit("able");
    }
    assert(prefixes_rise_upto(4)) by {
        reveal_strlit("able");
        reveal_strlit("about");
    }
    assert(prefixes_rise_upto(5)) by {
        reveal_strlit("about");
        reveal_strlit("above");
    }
    assert(prefixes_rise_upto(6)) by {
        reveal_strlit("above");
        reveal_strlit("absent");
    }
    assert(prefixes_rise_upto(7)) by {
        reveal_strlit("absent");
        reveal_strlit("absorb");
    }
    assert(prefixes_rise_upto(8)) by {
        reveal_strlit("absorb");
        reveal_strlit("abstract");
    }
    assert(prefixes_rise_upto(9)) by {
        reveal_strlit("abstract");
        reveal_strlit("absurd");
    }
    assert(prefixes_rise_upto(10)) by {
        reveal_strlit("absurd");
        reveal_strlit("abuse");
    }
    assert(prefixes_rise_upto(11)) by {
        reveal_strlit("abuse");
        reveal_strlit("access");
    }
    assert(prefixes_rise_upto(12)) by {
        reveal_strlit("access");
        reveal_strlit("accident");
    }
    assert(prefixes_rise_upto(13)) by {
        reveal_strlit("accident");
        reveal_strlit("account");
    }
    assert(prefixes_rise_upto(14)) by {
        reveal_strlit("account");
        reveal_strlit("accuse");
    }
    assert(prefixes_rise_upto(15)) by {
        reveal_strlit("accuse");
        reveal_strlit("achieve");
    }
    assert(prefixes_rise_upto(16)) by {
        reveal_strlit("achieve");
        reveal_strlit("acid");
    }
    assert(prefixes_rise_upto(17)) by {
        reveal_strlit("acid");
        reveal_strlit("acoustic");
    }
    assert(prefixes_rise_upto(18)) by {
        reveal_strlit("acoustic");
        reveal_strlit("acquire");
    }
    assert(prefixes_rise_upto(19)) by {
        reveal_strlit("acquire");
        reveal_strlit("across");
    }
    assert(prefixes_rise_upto(20)) by {
        reveal_strlit("across");
        reveal_strlit("act");
    }
    assert(prefixes_rise_upto(21)) by {
        reveal_strlit("act");
        reveal_strlit("action");
    }
    assert(prefixes_rise_upto(22)) by {
        reveal_strlit("action");
        reveal_strlit("actor");
    }
    assert(prefixes_rise_upto(23)) by {
        reveal_strlit("actor");
        reveal_strlit("actress");
    }
    assert(prefixes_rise_upto(24)) by {
        reveal_strlit("actress");
        reveal_strlit("actual");
    }
    assert(prefixes_rise_upto(25)) by {
        reveal_strlit("actual");
        reveal_strlit("adapt");
    }
    assert(prefixes_rise_upto(26)) by {
        reveal_strlit("adapt");
        reveal_strlit("add");
    }
    assert(prefixes_rise_upto(27)) by {
        reveal_strlit("add");
        reveal_strlit("addict");
    }
    assert(prefixes_rise_upto(28)) by {
        reveal_strlit("addict");
        reveal_strlit("address");
    }
    assert(prefixes_rise_upto(29)) by {
        reveal_strlit("address");
        reveal_strlit("adjust");
    }
    assert(prefixes_rise_upto(30)) by {
        reveal_strlit("adjust");
        reveal_strlit("admit");
    }
    assert(prefixes_rise_upto(31)) by {
        reveal_strlit("admit");
        reveal_strlit("adult");
    }
    assert(prefixes_rise_upto(32)) by {
        reveal_strlit("adult");
        reveal_strlit("advance");
    }
}

#[verifier::rlimit(30)]
proof fn lemma_prefix_block_1()
    requires
        prefixes_rise_upto(32),
    ensures
        prefixes_rise_upto(64),
{
    assert(prefixes_rise_upto(33)) by {
        reveal_strlit("advance");
        reveal_strlit("advice");
    }
    assert(prefixes_rise_upto(34)) by {
        reveal_strlit("advice");
        reveal_strlit("aerobic");
    }
    assert(prefixes_rise_upto(35)) by {
        reveal_strlit("aerobic");
        reveal_strlit("affair");
    }
    assert(prefixes_rise_upto(36)) by {
        reveal_strlit("affair");
        reveal_strlit("afford");
    }
    assert(prefixes_rise_upto(37)) by {
        reveal_strlit("afford");
        reveal_strlit("afraid");
    }
    assert(prefixes_rise_upto(38)) by {
        reveal_strlit("afraid");
        reveal_strlit("again");
    }
    assert(prefixes_rise_upto(39)) by {
        reveal_strlit("again");
        reveal_strlit("age");
    }
    assert(prefixes_rise_upto(40)) by {
        reveal_strlit("age");
        reveal_strlit("agent");
    }
    assert(prefixes_rise_upto(41)) by {
        reveal_strlit("agent");
        reveal_strlit("agree");
    }
    assert(prefixes_rise_upto(42)) by {
        reveal_strlit("agree");
        reveal_strlit("ahead");
    }
    assert(prefixes_rise_upto(43)) by {
        reveal_strlit("ahead");
        reveal_strlit("aim");
    }
    assert(prefixes_rise_upto(44)) by {
        reveal_strlit("aim");
        reveal_strlit("air");
    }
    assert(prefixes_rise_upto(45)) by {
        reveal_strlit("air");
        reveal_strlit("airport");
    }
    assert(prefixes_rise_upto(46)) by {
        reveal_strlit("airport");
        reveal_strlit("aisle");
    }
    assert(prefixes_rise_upto(47)) by {
        reveal_strlit("aisle");
        reveal_strlit("alarm");
    }
    assert(prefixes_rise_upto(48)) by {
        reveal_strlit("alarm");
        reveal_strlit("album");
    }
    assert(prefixes_rise_upto(49)) by {
        reveal_strlit("album");
        reveal_strlit("alcohol");
    }
    assert(prefixes_rise_upto(50)) by {
        reveal_strlit("alcohol");
        reveal_strlit("alert");
    }
    assert(prefixes_rise_upto(51)) by {
        reveal_strlit("alert");
        reveal_strlit("alien");
    }
    assert(prefixes_rise_upto(52)) by {
        reveal_strlit("alien");
        reveal_strlit("all");
    }
    assert(prefixes_rise_upto(53)) by {
        reveal_strlit("all");
        reveal_strlit("alley");
    }
    assert(prefixes_rise_upto(54)) by {
        reveal_strlit("alley");
        reveal_strlit("allow");
    }
    assert(prefixes_rise_upto(55)) by {
        reveal_strlit("allow");
        reveal_strlit("almost");
    }
    assert(prefixes_rise_upto(56)) by {
        reveal_strlit("almost");
        reveal_strlit("alone");
    }
    assert(prefixes_rise_upto(57)) by {
        reveal_strlit("alone");
        reveal_strlit("alpha");
    }
    assert(prefixes_rise_upto(58)) by {
        reveal_strlit("alpha");
        reveal_strlit("already");
    }
    assert(prefixes_rise_upto(59)) by {
        reveal_strlit("already");
        reveal_strlit("also");
    }
    assert(prefixes_rise_upto(60)) by {
        reveal_strlit("also");
        reveal_strlit("alter");
    }
    assert(prefixes_rise_upto(61)) by {
        reveal_strlit("alter");
        reveal_strlit("always");
    }
    assert(prefixes_rise_upto(62)) by {
        reveal_strlit("always");
        reveal_strlit("amateur");
    }
    assert(prefixes_rise_upto(63)) by {
        reveal_strlit("amateur");
        reveal_strlit("amazing");
    }
    assert(prefixes_rise_upto(64)) by {
        reveal_strlit("amazing");
        reveal_strlit("among");
    }
}

#[verifier::rlimit(30)]
proof fn lemma_prefix_block_2()
    requires
        prefixes_rise_upto(64),
    ensures
        prefixes_rise_upto(96),
{
    assert(prefixes_rise_upto(65)) by {
        reveal_strlit("among");
        reveal_strlit("amount");
    }
    assert(prefixes_rise_upto(66)) by {
        reveal_strlit("amount");
        reveal_strlit("amused");
    }
    assert(prefixes_rise_upto(67)) by {
        reveal_strlit("amused");
        reveal_strlit("analyst");
    }
    assert(prefixes_rise_upto(68)) by {
        reveal_strlit("analyst");
        reveal_strlit("anchor");
    }
    assert(prefixes_rise_upto(69)) by {
        reveal_strlit("anchor");
        reveal_strlit("ancient");
    }
    assert(prefixes_rise_upto(70)) by {
        reveal_strlit("ancient");
        reveal_strlit("anger");
    }
    assert(prefixes_rise_upto(71)) by {
        reveal_strlit("anger");
        reveal_strlit("angle");
    }
    assert(prefixes_rise_upto(72)) by {
        reveal_strlit("angle");
        reveal_strlit("angry");
    }
    assert(prefixes_rise_upto(73)) by {
        reveal_strlit("angry");
        reveal_strlit("animal");
    }
    assert(prefixes_rise_upto(74)) by {
        reveal_strlit("animal");
        reveal_strlit("ankle");
    }
    assert(prefixes_rise_upto(75)) by {
        reveal_strlit("ankle");
        reveal_strlit("announce");
    }
    assert(prefixes_rise_upto(76)) by {
        reveal_strlit("announce");
        reveal_strlit("annual");
    }
    assert(prefixes_rise_upto(77)) by {
        reveal_strlit("annual");
        reveal_strlit("another");
    }
    assert(prefixes_rise_upto(78)) by {
        reveal_strlit("another");
        reveal_strlit("answer");
    }
    assert(prefixes_rise_upto(79)) by {
        reveal_strlit("answer");
        reveal_strlit("antenna");
    }
    assert(prefixes_rise_upto(80)) by {
        reveal_strlit("antenna");
        reveal_strlit("antique");
    }
    assert(prefixes_rise_upto(81)) by {
        reveal_strlit("antique");
        reveal_strlit("anxiety");
    }
    assert(prefixes_rise_upto(82)) by {
        reveal_strlit("anxiety");
        reveal_strlit("any");
    }
    assert(prefixes_rise_upto(83)) by {
        reveal_strlit("any");
        reveal_strlit("apart");
    }
    assert(prefixes_rise_upto(84)) by {
        reveal_strlit("apart");
        reveal_strlit("apology");
    }
    assert(prefixes_rise_upto(85)) by {
        reveal_strlit("apology");
        reveal_strlit("appear");
    }
    assert(prefixes_rise_upto(86)) by {
        reveal_strlit("appear");
        reveal_strlit("apple");
    }
    assert(prefixes_rise_upto(87)) by {
        reveal_strlit("apple");
        reveal_strlit("approve");
    }
    assert(prefixes_rise_upto(88)) by {
        reveal_strlit("approve");
        reveal_strlit("april");
    }
    assert(prefixes_rise_upto(89)) by {
        reveal_strlit("april");
        reveal_strlit("arch");
    }
    assert(prefixes_rise_upto(90)) by {
        reveal_strlit("arch");
        reveal_strlit("arctic");
    }
    assert(prefixes_rise_upto(91)) by {
        reveal_strlit("arctic");
        reveal_strlit("area");
    }
    assert(prefixes_rise_upto(92)) by {
        reveal_strlit("area");
        reveal_strlit("arena");
    }
    assert(prefixes_rise_upto(93)) by {
        reveal_strlit("arena");
        reveal_strlit("argue");
    }
    assert(prefixes_rise_upto(94)) by {
        reveal_strlit("argue");
        reveal_strlit("arm");
    }
    assert(prefixes_rise_upto(95)) by {
        reveal_strlit("arm");
        reveal_strlit("armed");
    }
    assert(prefixes_rise_upto(96)) by {
        reveal_strlit("armed");
        reveal_strlit("armor");
    }
}

#[verifier::rlimit(30)]
proof fn lemma_prefix_block_3()
    requires
        prefixes_rise_upto(96),
    ensures
        prefixes_rise_upto(128),
{
    assert(prefixes_rise_upto(97)) by {
        reveal_strlit("armor");
        reveal_strlit("army");
    }
    assert(prefixes_rise_upto(98)) by {
        reveal_strlit("army");
        reveal_strlit("around");
    }
    assert(prefixes_rise_upto(99)) by {
        reveal_strlit("around");
        reveal_strlit("arrange");
    }
    assert(prefixes_rise_upto(100)) by {
        reveal_strlit("arrange");
        reveal_strlit("arrest");
    }
    assert(prefixes_rise_upto(101)) by {
        reveal_strlit("arrest");
        reveal_strlit("arrive");
    }
    assert(prefixes_rise_upto(102)) by {
        reveal_strlit("arrive");
        reveal_strlit("arrow");
    }
    assert(prefixes_rise_upto(103)) by {
        reveal_strlit("arrow");
        reveal_strlit("art");
    }
    assert(prefixes_rise_upto(104)) by {
        reveal_strlit("art");
        reveal_strlit("artefact");
    }
    assert(prefixes_rise_upto(105)) by {
        reveal_strlit("artefact");
        reveal_strlit("artist");
    }
    assert(prefixes_rise_upto(106)) by {
        reveal_strlit("artist");
        reveal_strlit("artwork");
    }
    assert(prefixes_rise_upto(107)) by {
        reveal_strlit("artwork");
        reveal_strlit("ask");
    }
    assert(prefixes_rise_upto(108)) by {
        reveal_strlit("ask");
        reveal_strlit("aspect");
    }
    assert(prefixes_rise_upto(109)) by {
        reveal_strlit("aspect");
        reveal_strlit("assault");
    }
    assert(prefixes_rise_upto(110)) by {
        reveal_strlit("assault");
        reveal_strlit("asset");
    }
    assert(prefixes_rise_upto(111)) by {
        reveal_strlit("asset");
        reveal_strlit("assist");
    }
    assert(prefixes_rise_upto(112)) by {
        reveal_strlit("assist");
        reveal_strlit("assume");
    }
    assert(prefixes_rise_upto(113)) by {
        reveal_strlit("assume");
        reveal_strlit("asthma");
    }
    assert(prefixes_rise_upto(114)) by {
        reveal_strlit("asthma");
        reveal_strlit("athlete");
    }
    assert(prefixes_rise_upto(115)) by {
        reveal_strlit("athlete");
        reveal_strlit("atom");
    }
    assert(prefixes_rise_upto(116)) by {
        reveal_strlit("atom");
        reveal_strlit("attack");
    }
    assert(prefixes_rise_upto(117)) by {
        reveal_strlit("attack");
        reveal_strlit("attend");
    }
    assert(prefixes_rise_upto(118)) by {
        reveal_strlit("attend");
        reveal_strlit("attitude");
    }
    assert(prefixes_rise_upto(119)) by {
        reveal_strlit("attitude");
        reveal_strlit("attract");
    }
    assert(prefixes_rise_upto(120)) by {
        reveal_strlit("attract");
        reveal_strlit("auction");
    }
    assert(prefixes_rise_upto(121)) by {
        reveal_strlit("auction");
        reveal_strlit("audit");
    }
    assert(prefixes_rise_upto(122)) by {
        reveal_strlit("audit");
        reveal_strlit("august");
    }
    assert(prefixes_rise_upto(123)) by {
        reveal_strlit("august");
        reveal_strlit("aunt");
    }
    assert(prefixes_rise_upto(124)) by {
        reveal_strlit("aunt");
        reveal_strlit("author");
    }
    assert(prefixes_rise_upto(125)) by {
        reveal_strlit("author");
        reveal_strlit("auto");
    }
    assert(prefixes_rise_upto(126)) by {
        reveal_strlit("auto");
        reveal_strlit("autumn");
    }
    assert(prefixes_rise_upto(127)) by {
        reveal_strlit("autumn");
        reveal_strlit("average");
    }
    assert(prefixes_rise_upto(128)) by {
        reveal_strlit("average");
        reveal_strlit("avocado");
    }
}

#[verifier::rlimit(30)]
proof fn lemma_prefix_block_4()
    requires
        prefixes_rise_upto(128),
    ensures
        prefixes_rise_upto(160),
{
    assert(prefixes_rise_upto(129)) by {
        reveal_strlit("avocado");
        reveal_strlit("avoid");
    }
    assert(prefixes_rise_upto(130)) by {
        reveal_strlit("avoid");
        reveal_strlit("awake");
    }
    assert(prefixes_rise_upto(131)) by {
        reveal_strlit("awake");
        reveal_strlit("aware");
    }
    assert(prefixes_rise_upto(132)) by {
        reveal_strlit("aware");
        reveal_strlit("away");
    }
    assert(prefixes_rise_upto(133)) by {
        reveal_strlit("away");
        reveal_strlit("awesome");
    }
    assert(prefixes_rise_upto(134)) by {
        reveal_strlit("awesome");
        reveal_strlit("awful");
    }
    assert(prefixes_rise_upto(135)) by {
        reveal_strlit("awful");
        reveal_strlit("awkward");
    }
    assert(prefixes_rise_upto(136)) by {
        reveal_strlit("awkward");
        reveal_strlit("axis");
    }
    assert(prefixes_rise_upto(137)) by {
        reveal_strlit("axis");
        reveal_strlit("baby");
    }
    assert(prefixes_rise_upto(138)) by {
        reveal_strlit("baby");
        reveal_strlit("bachelor");
    }
    assert(prefixes_rise_upto(139)) by {
        reveal_strlit("bachelor");
        reveal_strlit("bacon");
    }
    assert(prefixes_rise_upto(140)) by {
        reveal_strlit("bacon");
        reveal_strlit("badge");
    }
    assert(prefixes_rise_upto(141)) by {
        reveal_strlit("badge");
        reveal_strlit("bag");
    }
    assert(prefixes_rise_upto(142)) by {
        reveal_strlit("bag");
        reveal_strlit("balance");
    }
    assert(prefixes_rise_upto(143)) by {
        reveal_strlit("balance");
        reveal_strlit("balcony");
    }
    assert(prefixes_rise_upto(144)) by {
        reveal_strlit("balcony");
        reveal_strlit("ball");
    }
    assert(prefixes_rise_upto(145)) by {
        reveal_strlit("ball");
        reveal_strlit("bamboo");
    }
    assert(prefixes_rise_upto(146)) by {
        reveal_strlit("bamboo");
        reveal_strlit("banana");
    }
    assert(prefixes_rise_upto(147)) by {
        reveal_strlit("banana");
        reveal_strlit("banner");
    }
    assert(prefixes_rise_upto(148)) by {
        reveal_strlit("banner");
        reveal_strlit("bar");
    }
    assert(prefixes_rise_upto(149)) by {
        reveal_strlit("bar");
        reveal_strlit("barely");
    }
    assert(prefixes_rise_upto(150)) by {
        reveal_strlit("barely");
        reveal_strlit("bargain");
    }
    assert(prefixes_rise_upto(151)) by {
        reveal_strlit("bargain");
        reveal_strlit("barrel");
    }
    assert(prefixes_rise_upto(152)) by {
        reveal_strlit("barrel");
        reveal_strlit("base");
    }
    assert(prefixes_rise_upto(153)) by {
        reveal_strlit("base");
        reveal_strlit("basic");
    }
    assert(prefixes_rise_upto(154)) by {
        reveal_strlit("basic");
        reveal_strlit("basket");
    }
    assert(prefixes_rise_upto(155)) by {
        reveal_strlit("basket");
        reveal_strlit("battle");
    }
    assert(prefixes_rise_upto(156)) by {
        reveal_strlit("battle");
        reveal_strlit("beach");
    }
    assert(prefixes_rise_upto(157)) by {
        reveal_strlit("beach");
        reveal_strlit("bean");
    }
    assert(prefixes_rise_upto(158)) by {
        reveal_strlit("bean");
        reveal_strlit("beauty");
    }
    assert(prefixes_rise_upto(159)) by {
        reveal_strlit("beauty");
        reveal_strlit("because");
    }
    assert(prefixes_rise_upto(160)) by {
        reveal_strlit("because");
        reveal_strlit("become");
    }
}

#[verifier::rlimit(30)]
proof fn lemma_prefix_block_5()
    requires
        prefixes_rise_upto(160),
    ensures
        prefixes_rise_upto(192),
{
    assert(prefixes_rise_upto(161)) by {
        reveal_strlit("become");
        reveal_strlit("beef");
    }
    assert(prefixes_rise_upto(162)) by {
        reveal_strlit("beef");
        reveal_strlit("before");
    }
    assert(prefixes_rise_upto(163)) by {
        reveal_strlit("before");
        reveal_strlit("begin");
    }
    assert(prefixes_rise_upto(164)) by {
        reveal_strlit("begin");
        reveal_strlit("behave");
    }
    assert(prefixes_rise_upto(165)) by {
        reveal_strlit("behave");
        reveal_strlit("behind");
    }
    assert(prefixes_rise_upto(166)) by {
        reveal_strlit("behind");
        reveal_strlit("believe");
    }
    assert(prefixes_rise_upto(167)) by {
        reveal_strlit("believe");
        reveal_strlit("below");
    }
    assert(prefixes_rise_upto(168)) by {
        reveal_strlit("below");
        reveal_strlit("belt");
    }
    assert(prefixes_rise_upto(169)) by {
        reveal_strlit("belt");
        reveal_strlit("bench");
    }
    assert(prefixes_rise_upto(170)) by {
        reveal_strlit("bench");
        reveal_strlit("benefit");
    }
    assert(prefixes_rise_upto(171)) by {
        reveal_strlit("benefit");
        reveal_strlit("best");
    }
    assert(prefixes_rise_upto(172)) by {
        reveal_strlit("best");
        reveal_strlit("betray");
    }
    assert(prefixes_rise_upto(173)) by {
        reveal_strlit("betray");
        reveal_strlit("better");
    }
    assert(prefixes_rise_upto(174)) by {
        reveal_strlit("better");
        reveal_strlit("between");
    }
    assert(prefixes_rise_upto(175)) by {
        reveal_strlit("between");
        reveal_strlit("beyond");
    }
    assert(prefixes_rise_upto(176)) by {
        reveal_strlit("beyond");
        reveal_strlit("bicycle");
    }
    assert(prefixes_rise_upto(177)) by {
        reveal_strlit("bicycle");
        reveal_strlit("bid");
    }
    assert(prefixes_rise_upto(178)) by {
        reveal_strlit("bid");
        reveal_strlit("bike");
    }
    assert(prefixes_rise_upto(179)) by {
        reveal_strlit("bike");
        reveal_strlit("bind");
    }
    assert(prefixes_rise_upto(180)) by {
        reveal_strlit("bind");
        reveal_strlit("biology");
    }
    assert(prefixes_rise_upto(181)) by {
        reveal_strlit("biology");
        reveal_strlit("bird");
    }
    assert(prefixes_rise_upto(182)) by {
        reveal_strlit("bird");
        reveal_strlit("birth");
    }
    assert(prefixes_rise_upto(183)) by {
        reveal_strlit("birth");
        reveal_strlit("bitter");
    }
    assert(prefixes_rise_upto(184)) by {
        reveal_strlit("bitter");
        reveal_strlit("black");
    }
    assert(prefixes_rise_upto(185)) by {
        reveal_strlit("black");
        reveal_strlit("blade");
    }
    assert(prefixes_rise_upto(186)) by {
        reveal_strlit("blade");
        reveal_strlit("blame");
    }
    assert(prefixes_rise_upto(187)) by {
        reveal_strlit("blame");
        reveal_strlit("blanket");
    }
    assert(prefixes_rise_upto(188)) by {
        reveal_strlit("blanket");
        reveal_strlit("blast");
    }
    assert(prefixes_rise_upto(189)) by {
        reveal_strlit("blast");
        reveal_strlit("bleak");
    }
    assert(prefixes_rise_upto(190)) by {
        reveal_strlit("bleak");
        reveal_strlit("bless");
    }
    assert(prefixes_rise_upto(191)) by {
        reveal_strlit("bless");
        reveal_strlit("blind");
    }
    assert(prefixes_rise_upto(192)) by {
        reveal_strlit("blind");
        reveal_strlit("blood");
    }
}

#[verifier::rlimit(30)]
proof fn lemma_prefix_block_6()
    requires
        prefixes_rise_upto(192),
    ensures
        prefixes_rise_upto(224),
{
    assert(prefixes_rise_upto(193)) by {
        reveal_strlit("blood");
        reveal_strlit("blossom");
    }
    assert(prefixes_rise_upto(194)) by {
        reveal_strlit("blossom");
        reveal_strlit("blouse");
    }
    assert(prefixes_rise_upto(195)) by {
        reveal_strlit("blouse");
        reveal_strlit("blue");
    }
    assert(prefixes_rise_upto(196)) by {
        reveal_strlit("blue");
        reveal_strlit("blur");
    }
    assert(prefixes_rise_upto(197)) by {
        reveal_strlit("blur");
        reveal_strlit("blush");
    }
    assert(prefixes_rise_upto(198)) by {
        reveal_strlit("blush");
        reveal_strlit("board");
    }
    assert(prefixes_rise_upto(199)) by {
        reveal_strlit("board");
        reveal_strlit("boat");
    }
    assert(prefixes_rise_upto(200)) by {
        reveal_strlit("boat");
        reveal_strlit("body");
    }
    assert(prefixes_rise_upto(201)) by {
        reveal_strlit("body");
        reveal_strlit("boil");
    }
    assert(prefixes_rise_upto(202)) by {
        reveal_strlit("boil");
        reveal_strlit("bomb");
    }
    assert(prefixes_rise_upto(203)) by {
        reveal_strlit("bomb");
        reveal_strlit("bone");
    }
    assert(prefixes_rise_upto(204)) by {
        reveal_strlit("bone");
        reveal_strlit("bonus");
    }
    assert(prefixes_rise_upto(205)) by {
        reveal_strlit("bonus");
        reveal_strlit("book");
    }
    assert(prefixes_rise_upto(206)) by {
        reveal_strlit("book");
        reveal_strlit("boost");
    }
    assert(prefixes_rise_upto(207)) by {
        reveal_strlit("boost");
        reveal_strlit("border");
    }
    assert(prefixes_rise_upto(208)) by {
        reveal_strlit("border");
        reveal_strlit("boring");
    }
    assert(prefixes_rise_upto(209)) by {
        reveal_strlit("boring");
        reveal_strlit("borrow");
    }
    assert(prefixes_rise_upto(210)) by {
        reveal_strlit("borrow");
        reveal_strlit("boss");
    }
    assert(prefixes_rise_upto(211)) by {
        reveal_strlit("boss");
        reveal_strlit("bottom");
    }
    assert(prefixes_rise_upto(212)) by {
        reveal_strlit("bottom");
        reveal_strlit("bounce");
    }
    assert(prefixes_rise_upto(213)) by {
        reveal_strlit("bounce");
        reveal_strlit("box");
    }
    assert(prefixes_rise_upto(214)) by {
        reveal_strlit("box");
        reveal_strlit("boy");
    }
    assert(prefixes_rise_upto(215)) by {
        reveal_strlit("boy");
        reveal_strlit("bracket");
    }
    assert(prefixes_rise_upto(216)) by {
        reveal_strlit("bracket");
        reveal_strlit("brain");
    }
    assert(prefixes_rise_upto(217)) by {
        reveal_strlit("brain");
        reveal_strlit("brand");
    }
    assert(prefixes_rise_upto(218)) by {
        reveal_strlit("brand");
        reveal_strlit("brass");
    }
    assert(prefixes_rise_upto(219)) by {
        reveal_strlit("brass");
        reveal_strlit("brave");
    }
    assert(prefixes_rise_upto(220)) by {
        reveal_strlit("brave");
        reveal_strlit("bread");
    }
    assert(prefixes_rise_upto(221)) by {
        reveal_strlit("bread");
        reveal_strlit("breeze");
    }
    assert(prefixes_rise_upto(222)) by {
        reveal_strlit("breeze");
        reveal_strlit("brick");
    }
    assert(prefixes_rise_upto(223)) by {
        reveal_strlit("brick");
        reveal_strlit("bridge");
    }
    assert(prefixes_rise_upto(224)) by {
        reveal_strlit("bridge");
        reveal_strlit("brief");
    }
}

#[verifier::rlimit(30)]
proof fn lemma_prefix_block_7()
    requires
        prefixes_rise_upto(224),
    ensures
        prefixes_rise_upto(256),
{
    assert(prefixes_rise_upto(225)) by {
        reveal_strlit("brief");
        reveal_strlit("bright");
    }
    assert(prefixes_rise_upto(226)) by {
        reveal_strlit("bright");
        reveal_strlit("bring");
    }
    assert(prefixes_rise_upto(227)) by {
        reveal_strlit("bring");
        reveal_strlit("brisk");
    }
    assert(prefixes_rise_upto(228)) by {
        reveal_strlit("brisk");
        reveal_strlit("broccoli");
    }
    assert(prefixes_rise_upto(229)) by {
        reveal_strlit("broccoli");
        reveal_strlit("broken");
    }
    assert(prefixes_rise_upto(230)) by {
        reveal_strlit("broken");
        reveal_strlit("bronze");
    }
    assert(prefixes_rise_upto(231)) by {
        reveal_strlit("bronze");
        reveal_strlit("broom");
    }
    assert(prefixes_rise_upto(232)) by {
        reveal_strlit("broom");
        reveal_strlit("brother");
    }
    assert(prefixes_rise_upto(233)) by {
        reveal_strlit("brother");
        reveal_strlit("brown");
    }
    assert(prefixes_rise_upto(234)) by {
        reveal_strlit("brown");
        reveal_strlit("brush");
    }
    assert(prefixes_rise_upto(235)) by {
        reveal_strlit("brush");
        reveal_strlit("bubble");
    }
    assert(prefixes_rise_upto(236)) by {
        reveal_strlit("bubble");
        reveal_strlit("buddy");
    }
    assert(prefixes_rise_upto(237)) by {
        reveal_strlit("buddy");
        reveal_strlit("budget");
    }
    assert(prefixes_rise_upto(238)) by {
        reveal_strlit("budget");
        reveal_strlit("buffalo");
    }
    assert(prefixes_rise_upto(239)) by {
        reveal_strlit("buffalo");
        reveal_strlit("build");
    }
    assert(prefixes_rise_upto(240)) by {
        reveal_strlit("build");
        reveal_strlit("bulb");
    }
    assert(prefixes_rise_upto(241)) by {
        reveal_strlit("bulb");
        reveal_strlit("bulk");
    }
    assert(prefixes_rise_upto(242)) by {
        reveal_strlit("bulk");
        reveal_strlit("bullet");
    }
    assert(prefixes_rise_upto(243)) by {
        reveal_strlit("bullet");
        reveal_strlit("bundle");
    }
    assert(prefixes_rise_upto(244)) by {
        reveal_strlit("bundle");
        reveal_strlit("bunker");
    }
    assert(prefixes_rise_upto(245)) by {
        reveal_strlit("bunker");
        reveal_strlit("burden");
    }
    assert(prefixes_rise_upto(246)) by {
        reveal_strlit("burden");
        reveal_strlit("burger");
    }
    assert(prefixes_rise_upto(247)) by {
        reveal_strlit("burger");
        reveal_strlit("burst");
    }
    assert(prefixes_rise_upto(248)) by {
        reveal_strlit("burst");
        reveal_strlit("bus");
    }
    assert(prefixes_rise_upto(249)) by {
        reveal_strlit("bus");
        reveal_strlit("business");
    }
    assert(prefixes_rise_upto(250)) by {
        reveal_strlit("business");
        reveal_strlit("busy");
    }
    assert(prefixes_rise_upto(251)) by {
        reveal_strlit("busy");
        reveal_strlit("butter");
    }
    assert(prefixes_rise_upto(252)) by {
        reveal_strlit("butter");
        reveal_strlit("buyer");
    }
    assert(prefixes_rise_upto(253)) by {
        reveal_strlit("buyer");
        reveal_strlit("buzz");
    }
    assert(prefixes_rise_upto(254)) by {
        reveal_strlit("buzz");
        reveal_strlit("cabbage");
    }
    assert(prefixes_rise_upto(255)) by {
        reveal_strlit("cabbage");
        reveal_strlit("cabin");
    }
    assert(prefixes_rise_upto(256)) by {
        reveal_strlit("cabin");
        reveal_strlit("cable");
    }
}

#[verifier::rlimit(30)]
proof fn lemma_prefix_block_8()
    requires
        prefixes_rise_upto(256),
    ensures
        prefixes_rise_upto(288),
{
    assert(prefixes_rise_upto(257)) by {
        reveal_strlit("cable");
        reveal_strlit("cactus");
    }
    assert(prefixes_rise_upto(258)) by {
        reveal_strlit("cactus");
        reveal_strlit("cage");
    }
    assert(prefixes_rise_upto(259)) by {
        reveal_strlit("cage");
        reveal_strlit("cake");
    }
    assert(prefixes_rise_upto(260)) by {
        reveal_strlit("cake");
        reveal_strlit("call");
    }
    assert(prefixes_rise_upto(261)) by {
        reveal_strlit("call");
        reveal_strlit("calm");
    }
    assert(prefixes_rise_upto(262)) by {
        reveal_strlit("calm");
        reveal_strlit("camera");
    }
    assert(prefixes_rise_upto(263)) by {
        reveal_strlit("camera");
        reveal_strlit("camp");
    }
    assert(prefixes_rise_upto(264)) by {
        reveal_strlit("camp");
        reveal_strlit("can");
    }
    assert(prefixes_rise_upto(265)) by {
        reveal_strlit("can");
        reveal_strlit("canal");
    }
    assert(prefixes_rise_upto(266)) by {
        reveal_strlit("canal");
        reveal_strlit("cancel");
    }
    assert(prefixes_rise_upto(267)) by {
        reveal_strlit("cancel");
        reveal_strlit("candy");
    }
    assert(prefixes_rise_upto(268)) by {
        reveal_strlit("candy");
        reveal_strlit("cannon");
    }
    assert(prefixes_rise_upto(269)) by {
        reveal_strlit("cannon");
        reveal_strlit("canoe");
    }
    assert(prefixes_rise_upto(270)) by {
        reveal_strlit("canoe");
        reveal_strlit("canvas");
    }
    assert(prefixes_rise_upto(271)) by {
        reveal_strlit("canvas");
        reveal_strlit("canyon");
    }
    assert(prefixes_rise_upto(272)) by {
        reveal_strlit("canyon");
        reveal_strlit("capable");
    }
    assert(prefixes_rise_upto(273)) by {
        reveal_strlit("capable");
        reveal_strlit("capital");
    }
    assert(prefixes_rise_upto(274)) by {
        reveal_strlit("capital");
        reveal_strlit("captain");
    }
    assert(prefixes_rise_upto(275)) by {
        reveal_strlit("captain");
        reveal_strlit("car");
    }
    assert(prefixes_rise_upto(276)) by {
        reveal_strlit("car");
        reveal_strlit("carbon");
    }
    assert(prefixes_rise_upto(277)) by {
        reveal_strlit("carbon");
        reveal_strlit("card");
    }
    assert(prefixes_rise_upto(278)) by {
        reveal_strlit("card");
        reveal_strlit("cargo");
    }
    assert(prefixes_rise_upto(279)) by {
        reveal_strlit("cargo");
        reveal_strlit("carpet");
    }
    assert(prefixes_rise_upto(280)) by {
        reveal_strlit("carpet");
        reveal_strlit("carry");
    }
    assert(prefixes_rise_upto(281)) by {
        reveal_strlit("carry");
        reveal_strlit("cart");
    }
    assert(prefixes_rise_upto(282)) by {
        reveal_strlit("cart");
        reveal_strlit("case");
    }
    assert(prefixes_rise_upto(283)) by {
        reveal_strlit("case");
        reveal_strlit("cash");
    }
    assert(prefixes_rise_upto(284)) by {
        reveal_strlit("cash");
        reveal_strlit("casino");
    }
    assert(prefixes_rise_upto(285)) by {
        reveal_strlit("casino");
        reveal_strlit("castle");
    }
    assert(prefixes_rise_upto(286)) by {
        reveal_strlit("castle");
        reveal_strlit("casual");
    }
    assert(prefixes_rise_upto(287)) by {
        reveal_strlit("casual");
        reveal_strlit("cat");
    }
    assert(prefixes_rise_upto(288)) by {
        reveal_strlit("cat");
        reveal_strlit("catalog");
    }
}

#[verifier::rlimit(30)]
proof fn lemma_prefix_block_9()
    requires
        prefixes_rise_upto(288),
    ensures
        prefixes_rise_upto(320),
{
    assert(prefixes_rise_upto(289)) by {
        reveal_strlit("catalog");
        reveal_strlit("catch");
    }
    assert(prefixes_rise_upto(290)) by {
        reveal_strlit("catch");
        reveal_strlit("category");
    }
    assert(prefixes_rise_upto(291)) by {
        reveal_strlit("category");
        reveal_strlit("cattle");
    }
    assert(prefixes_rise_upto(292)) by {
        reveal_strlit("cattle");
        reveal_strlit("caught");
    }
    assert(prefixes_rise_upto(293)) by {
        reveal_strlit("caught");
        reveal_strlit("cause");
    }
    assert(prefixes_rise_upto(294)) by {
        reveal_strlit("cause");
        reveal_strlit("caution");
    }
    assert(prefixes_rise_upto(295)) by {
        reveal_strlit("caution");
        reveal_strlit("cave");
    }
    assert(prefixes_rise_upto(296)) by {
        reveal_strlit("cave");
        reveal_strlit("ceiling");
    }
    assert(prefixes_rise_upto(297)) by {
        reveal_strlit("ceiling");
        reveal_strlit("celery");
    }
    assert(prefixes_rise_upto(298)) by {
        reveal_strlit("celery");
        reveal_strlit("cement");
    }
    assert(prefixes_rise_upto(299)) by {
        reveal_strlit("cement");
        reveal_strlit("census");
    }
    assert(prefixes_rise_upto(300)) by {
        reveal_strlit("census");
        reveal_strlit("century");
    }
    assert(prefixes_rise_upto(301)) by {
        reveal_strlit("century");
        reveal_strlit("cereal");
    }
    assert(prefixes_rise_upto(302)) by {
        reveal_strlit("cereal");
        reveal_strlit("certain");
    }
    assert(prefixes_rise_upto(303)) by {
        reveal_strlit("certain");
        reveal_strlit("chair");
    }
    assert(prefixes_rise_upto(304)) by {
        reveal_strlit("chair");
        reveal_strlit("chalk");
    }
    assert(prefixes_rise_upto(305)) by {
        reveal_strlit("chalk");
        reveal_strlit("champion");
    }
    assert(prefixes_rise_upto(306)) by {
        reveal_strlit("champion");
        reveal_strlit("change");
    }
    assert(prefixes_rise_upto(307)) by {
        reveal_strlit("change");
        reveal_strlit("chaos");
    }
    assert(prefixes_rise_upto(308)) by {
        reveal_strlit("chaos");
        reveal_strlit("chapter");
    }
    assert(prefixes_rise_upto(309)) by {
        reveal_strlit("chapter");
        reveal_strlit("charge");
    }
    assert(prefixes_rise_upto(310)) by {
        reveal_strlit("charge");
        reveal_strlit("chase");
    }
    assert(prefixes_rise_upto(311)) by {
        reveal_strlit("chase");
        reveal_strlit("chat");
    }
    assert(prefixes_rise_upto(312)) by {
        reveal_strlit("chat");
        reveal_strlit("cheap");
    }
    assert(prefixes_rise_upto(313)) by {
        reveal_strlit("cheap");
        reveal_strlit("check");
    }
    assert(prefixes_rise_upto(314)) by {
        reveal_strlit("check");
        reveal_strlit("cheese");
    }
    assert(prefixes_rise_upto(315)) by {
        reveal_strlit("cheese");
        reveal_strlit("chef");
    }
    assert(prefixes_rise_upto(316)) by {
        reveal_strlit("chef");
        reveal_strlit("cherry");
    }
    assert(prefixes_rise_upto(317)) by {
        reveal_strlit("cherry");
        reveal_strlit("chest");
    }
    assert(prefixes_rise_upto(318)) by {
        reveal_strlit("chest");
        reveal_strlit("chicken");
    }
    assert(prefixes_rise_upto(319)) by {
        reveal_strlit("chicken");
        reveal_strlit("chief");
    }
    assert(prefixes_rise_upto(320)) by {
        reveal_strlit("chief");
        reveal_strlit("child");
    }
}

#[verifier::rlimit(30)]
proof fn lemma_prefix_block_10()
    requires
        prefixes_rise_upto(320),
    ensures
        prefixes_rise_upto(352),
{
    assert(prefixes_rise_upto(321)) by {
        reveal_strlit("child");
        reveal_strlit("chimney");
    }
    assert(prefixes_rise_upto(322)) by {
        reveal_strlit("chimney");
        reveal_strlit("choice");
    }
    assert(prefixes_rise_upto(323)) by {
        reveal_strlit("choice");
        reveal_strlit("choose");
    }
    assert(prefixes_rise_upto(324)) by {
        reveal_strlit("choose");
        reveal_strlit("chronic");
    }
    assert(prefixes_rise_upto(325)) by {
        reveal_strlit("chronic");
        reveal_strlit("chuckle");
    }
    assert(prefixes_rise_upto(326)) by {
        reveal_strlit("chuckle");
        reveal_strlit("chunk");
    }
    assert(prefixes_rise_upto(327)) by {
        reveal_strlit("chunk");
        reveal_strlit("churn");
    }
    assert(prefixes_rise_upto(328)) by {
        reveal_strlit("churn");
        reveal_strlit("cigar");
    }
    assert(prefixes_rise_upto(329)) by {
        reveal_strlit("cigar");
        reveal_strlit("cinnamon");
    }
    assert(prefixes_rise_upto(330)) by {
        reveal_strlit("cinnamon");
        reveal_strlit("circle");
    }
    assert(prefixes_rise_upto(331)) by {
        reveal_strlit("circle");
        reveal_strlit("citizen");
    }
    assert(prefixes_rise_upto(332)) by {
        reveal_strlit("citizen");
        reveal_strlit("city");
    }
    assert(prefixes_rise_upto(333)) by {
        reveal_strlit("city");
        reveal_strlit("civil");
    }
    assert(prefixes_rise_upto(334)) by {
        reveal_strlit("civil");
        reveal_strlit("claim");
    }
    assert(prefixes_rise_upto(335)) by {
        reveal_strlit("claim");
        reveal_strlit("clap");
    }
    assert(prefixes_rise_upto(336)) by {
        reveal_strlit("clap");
        reveal_strlit("clarify");
    }
    assert(prefixes_rise_upto(337)) by {
        reveal_strlit("clarify");
        reveal_strlit("claw");
    }
    assert(prefixes_rise_upto(338)) by {
        reveal_strlit("claw");
        reveal_strlit("clay");
    }
    assert(prefixes_rise_upto(339)) by {
        reveal_strlit("clay");
        reveal_strlit("clean");
    }
    assert(prefixes_rise_upto(340)) by {
        reveal_strlit("clean");
        reveal_strlit("clerk");
    }
    assert(prefixes_rise_upto(341)) by {
        reveal_strlit("clerk");
        reveal_strlit("clever");
    }
    assert(prefixes_rise_upto(342)) by {
        reveal_strlit("clever");
        reveal_strlit("click");
    }
    assert(prefixes_rise_upto(343)) by {
        reveal_strlit("click");
        reveal_strlit("client");
    }
    assert(prefixes_rise_upto(344)) by {
        reveal_strlit("client");
        reveal_strlit("cliff");
    }
    assert(prefixes_rise_upto(345)) by {
        reveal_strlit("cliff");
        reveal_strlit("climb");
    }
    assert(prefixes_rise_upto(346)) by {
        reveal_strlit("climb");
        reveal_strlit("clinic");
    }
    assert(prefixes_rise_upto(347)) by {
        reveal_strlit("clinic");
        reveal_strlit("clip");
    }
    assert(prefixes_rise_upto(348)) by {
        reveal_strlit("clip");
        reveal_strlit("clock");
    }
    assert(prefixes_rise_upto(349)) by {
        reveal_strlit("clock");
        reveal_strlit("clog");
    }
    assert(prefixes_rise_upto(350)) by {
        reveal_strlit("clog");
        reveal_strlit("close");
    }
    assert(prefixes_rise_upto(351)) by {
        reveal_strlit("close");
        reveal_strlit("cloth");
    }
    assert(prefixes_rise_upto(352)) by {
        reveal_strlit("cloth");
        reveal_strlit("cloud");
    }
}

#[verifier::rlimit(30)]
proof fn lemma_prefix_block_11()
    requires
        prefixes_rise_upto(352),
    ensures
        prefixes_rise_upto(384),
{
    assert(prefixes_rise_upto(353)) by {
        reveal_strlit("cloud");
        reveal_strlit("clown");
    }
    assert(prefixes_rise_upto(354)) by {
        reveal_strlit("clown");
        reveal_strlit("club");
    }
    assert(prefixes_rise_upto(355)) by {
        reveal_strlit("club");
        reveal_strlit("clump");
    }
    assert(prefixes_rise_upto(356)) by {
        reveal_strlit("clump");
        reveal_strlit("cluster");
    }
    assert(prefixes_rise_upto(357)) by {
        reveal_strlit("cluster");
        reveal_strlit("clutch");
    }
    assert(prefixes_rise_upto(358)) by {
        reveal_strlit("clutch");
        reveal_strlit("coach");
    }
    assert(prefixes_rise_upto(359)) by {
        reveal_strlit("coach");
        reveal_strlit("coast");
    }
    assert(prefixes_rise_upto(360)) by {
        reveal_strlit("coast");
        reveal_strlit("coconut");
    }
    assert(prefixes_rise_upto(361)) by {
        reveal_strlit("coconut");
        reveal_strlit("code");
    }
    assert(prefixes_rise_upto(362)) by {
        reveal_strlit("code");
        reveal_strlit("coffee");
    }
    assert(prefixes_rise_upto(363)) by {
        reveal_strlit("coffee");
        reveal_strlit("coil");
    }
    assert(prefixes_rise_upto(364)) by {
        reveal_strlit("coil");
        reveal_strlit("coin");
    }
    assert(prefixes_rise_upto(365)) by {
        reveal_strlit("coin");
        reveal_strlit("collect");
    }
    assert(prefixes_rise_upto(366)) by {
        reveal_strlit("collect");
        reveal_strlit("color");
    }
    assert(prefixes_rise_upto(367)) by {
        reveal_strlit("color");
        reveal_strlit("column");
    }
    assert(prefixes_rise_upto(368)) by {
        reveal_strlit("column");
        reveal_strlit("combine");
    }
    assert(prefixes_rise_upto(369)) by {
        reveal_strlit("combine");
        reveal_strlit("come");
    }
    assert(prefixes_rise_upto(370)) by {
        reveal_strlit("come");
        reveal_strlit("comfort");
    }
    assert(prefixes_rise_upto(371)) by {
        reveal_strlit("comfort");
        reveal_strlit("comic");
    }
    assert(prefixes_rise_upto(372)) by {
        reveal_strlit("comic");
        reveal_strlit("common");
    }
    assert(prefixes_rise_upto(373)) by {
        reveal_strlit("common");
        reveal_strlit("company");
    }
    assert(prefixes_rise_upto(374)) by {
        reveal_strlit("company");
        reveal_strlit("concert");
    }
    assert(prefixes_rise_upto(375)) by {
        reveal_strlit("concert");
        reveal_strlit("conduct");
    }
    assert(prefixes_rise_upto(376)) by {
        reveal_strlit("conduct");
        reveal_strlit("confirm");
    }
    assert(prefixes_rise_upto(377)) by {
        reveal_strlit("confirm");
        reveal_strlit("congress");
    }
    assert(prefixes_rise_upto(378)) by {
        reveal_strlit("congress");
        reveal_strlit("connect");
    }
    assert(prefixes_rise_upto(379)) by {
        reveal_strlit("connect");
        reveal_strlit("consider");
    }
    assert(prefixes_rise_upto(380)) by {
        reveal_strlit("consider");
        reveal_strlit("control");
    }
    assert(prefixes_rise_upto(381)) by {
        reveal_strlit("control");
        reveal_strlit("convince");
    }
    assert(prefixes_rise_upto(382)) by {
        reveal_strlit("convince");
        reveal_strlit("cook");
    }
    assert(prefixes_rise_upto(383)) by {
        reveal_strlit("cook");
        reveal_strlit("cool");
    }
    assert(prefixes_rise_upto(384)) by {
        reveal_strlit("cool");
        reveal_strlit("copper");
    }
}

#[verifier::rlimit(30)]
proof fn lemma_prefix_block_12()
    requires
        prefixes_rise_upto(384),
    ensures
        prefixes_rise_upto(416),
{
    assert(prefixes_rise_upto(385)) by {
        reveal_strlit("copper");
        reveal_strlit("copy");
    }
    assert(prefixes_rise_upto(386)) by {
        reveal_strlit("copy");
        reveal_strlit("coral");
    }
    assert(prefixes_rise_upto(387)) by {
        reveal_strlit("coral");
        reveal_strlit("core");
    }
    assert(prefixes_rise_upto(388)) by {
        reveal_strlit("core");
        reveal_strlit("corn");
    }
    assert(prefixes_rise_upto(389)) by {
        reveal_strlit("corn");
        reveal_strlit("correct");
    }
    assert(prefixes_rise_upto(390)) by {
        reveal_strlit("correct");
        reveal_strlit("cost");
    }
    assert(prefixes_rise_upto(391)) by {
        reveal_strlit("cost");
        reveal_strlit("cotton");
    }
    assert(prefixes_rise_upto(392)) by {
        reveal_strlit("cotton");
        reveal_strlit("couch");
    }
    assert(prefixes_rise_upto(393)) by {
        reveal_strlit("couch");
        reveal_strlit("country");
    }
    assert(prefixes_rise_upto(394)) by {
        reveal_strlit("country");
        reveal_strlit("couple");
    }
    assert(prefixes_rise_upto(395)) by {
        reveal_strlit("couple");
        reveal_strlit("course");
    }
    assert(prefixes_rise_upto(396)) by {
        reveal_strlit("course");
        reveal_strlit("cousin");
    }
    assert(prefixes_rise_upto(397)) by {
        reveal_strlit("cousin");
        reveal_strlit("cover");
    }
    assert(prefixes_rise_upto(398)) by {
        reveal_strlit("cover");
        reveal_strlit("coyote");
    }
    assert(prefixes_rise_upto(399)) by {
        reveal_strlit("coyote");
        reveal_strlit("crack");
    }
    assert(prefixes_rise_upto(400)) by {
        reveal_strlit("crack");
        reveal_strlit("cradle");
    }
    assert(prefixes_rise_upto(401)) by {
        reveal_strlit("cradle");
        reveal_strlit("craft");
    }
    assert(prefixes_rise_upto(402)) by {
        reveal_strlit("craft");
        reveal_strlit("cram");
    }
    assert(prefixes_rise_upto(403)) by {
        reveal_strlit("cram");
        reveal_strlit("crane");
    }
    assert(prefixes_rise_upto(404)) by {
        reveal_strlit("crane");
        reveal_strlit("crash");
    }
    assert(prefixes_rise_upto(405)) by {
        reveal_strlit("crash");
        reveal_strlit("crater");
    }
    assert(prefixes_rise_upto(406)) by {
        reveal_strlit("crater");
        reveal_strlit("crawl");
    }
    assert(prefixes_rise_upto(407)) by {
        reveal_strlit("crawl");
        reveal_strlit("crazy");
    }
    assert(prefixes_rise_upto(408)) by {
        reveal_strlit("crazy");
        reveal_strlit("cream");
    }
    assert(prefixes_rise_upto(409)) by {
        reveal_strlit("cream");
        reveal_strlit("credit");
    }
    assert(prefixes_rise_upto(410)) by {
        reveal_strlit("credit");
        reveal_strlit("creek");
    }
    assert(prefixes_rise_upto(411)) by {
        reveal_strlit("creek");
        reveal_strlit("crew");
    }
    assert(prefixes_rise_upto(412)) by {
        reveal_strlit("crew");
        reveal_strlit("cricket");
    }
    assert(prefixes_rise_upto(413)) by {
        reveal_strlit("cricket");
        reveal_strlit("crime");
    }
    assert(prefixes_rise_upto(414)) by {
        reveal_strlit("crime");
        reveal_strlit("crisp");
    }
    assert(prefixes_rise_upto(415)) by {
        reveal_strlit("crisp");
        reveal_strlit("critic");
    }
    assert(prefixes_rise_upto(416)) by {
        reveal_strlit("critic");
        reveal_strlit("crop");
    }
}

#[verifier::rlimit(30)]
proof fn lemma_prefix_block_13()
    requires
        prefixes_rise_upto(416),
    ensures
        prefixes_rise_upto(448),
{
    assert(prefixes_rise_upto(417)) by {
        reveal_strlit("crop");
        reveal_strlit("cross");
    }
    assert(prefixes_rise_upto(418)) by {
        reveal_strlit("cross");
        reveal_strlit("crouch");
    }
    assert(prefixes_rise_upto(419)) by {
        reveal_strlit("crouch");
        reveal_strlit("crowd");
    }
    assert(prefixes_rise_upto(420)) by {
        reveal_strlit("crowd");
        reveal_strlit("crucial");
    }
    assert(prefixes_rise_upto(421)) by {
        reveal_strlit("crucial");
        reveal_strlit("cruel");
    }
    assert(prefixes_rise_upto(422)) by {
        reveal_strlit("cruel");
        reveal_strlit("cruise");
    }
    assert(prefixes_rise_upto(423)) by {
        reveal_strlit("cruise");
        reveal_strlit("crumble");
    }
    assert(prefixes_rise_upto(424)) by {
        reveal_strlit("crumble");
        reveal_strlit("crunch");
    }
    assert(prefixes_rise_upto(425)) by {
        reveal_strlit("crunch");
        reveal_strlit("crush");
    }
    assert(prefixes_rise_upto(426)) by {
        reveal_strlit("crush");
        reveal_strlit("cry");
    }
    assert(prefixes_rise_upto(427)) by {
        reveal_strlit("cry");
        reveal_strlit("crystal");
    }
    assert(prefixes_rise_upto(428)) by {
        reveal_strlit("crystal");
        reveal_strlit("cube");
    }
    assert(prefixes_rise_upto(429)) by {
        reveal_strlit("cube");
        reveal_strlit("culture");
    }
    assert(prefixes_rise_upto(430)) by {
        reveal_strlit("culture");
        reveal_strlit("cup");
    }
    assert(prefixes_rise_upto(431)) by {
        reveal_strlit("cup");
        reveal_strlit("cupboard");
    }
    assert(prefixes_rise_upto(432)) by {
        reveal_strlit("cupboard");
        reveal_strlit("curious");
    }
    assert(prefixes_rise_upto(433)) by {
        reveal_strlit("curious");
        reveal_strlit("current");
    }
    assert(prefixes_rise_upto(434)) by {
        reveal_strlit("current");
        reveal_strlit("curtain");
    }
    assert(prefixes_rise_upto(435)) by {
        reveal_strlit("curtain");
        reveal_strlit("curve");
    }
    assert(prefixes_rise_upto(436)) by {
        reveal_strlit("curve");
        reveal_strlit("cushion");
    }
    assert(prefixes_rise_upto(437)) by {
        reveal_strlit("cushion");
        reveal_strlit("custom");
    }
    assert(prefixes_rise_upto(438)) by {
        reveal_strlit("custom");
        reveal_strlit("cute");
    }
    assert(prefixes_rise_upto(439)) by {
        reveal_strlit("cute");
        reveal_strlit("cycle");
    }
    assert(prefixes_rise_upto(440)) by {
        reveal_strlit("cycle");
        reveal_strlit("dad");
    }
    assert(prefixes_rise_upto(441)) by {
        reveal_strlit("dad");
        reveal_strlit("damage");
    }
    assert(prefixes_rise_upto(442)) by {
        reveal_strlit("damage");
        reveal_strlit("damp");
    }
    assert(prefixes_rise_upto(443)) by {
        reveal_strlit("damp");
        reveal_strlit("dance");
    }
    assert(prefixes_rise_upto(444)) by {
        reveal_strlit("dance");
        reveal_strlit("danger");
    }
    assert(prefixes_rise_upto(445)) by {
        reveal_strlit("danger");
        reveal_strlit("daring");
    }
    assert(prefixes_rise_upto(446)) by {
        reveal_strlit("daring");
        reveal_strlit("dash");
    }
    assert(prefixes_rise_upto(447)) by {
        reveal_strlit("dash");
        reveal_strlit("daughter");
    }
    assert(prefixes_rise_upto(448)) by {
        reveal_strlit("daughter");
        reveal_strlit("dawn");
    }
}

#[verifier::rlimit(30)]
proof fn lemma_prefix_block_14()
    requires
        prefixes_rise_upto(448),
    ensures
        prefixes_rise_upto(480),
{
    assert(prefixes_rise_upto(449)) by {
        reveal_strlit("dawn");
        reveal_strlit("day");
    }
    assert(prefixes_rise_upto(450)) by {
        reveal_strlit("day");
        reveal_strlit("deal");
    }
    assert(prefixes_rise_upto(451)) by {
        reveal_strlit("deal");
        reveal_strlit("debate");
    }
    assert(prefixes_rise_upto(452)) by {
        reveal_strlit("debate");
        reveal_strlit("debris");
    }
    assert(prefixes_rise_upto(453)) by {
        reveal_strlit("debris");
        reveal_strlit("decade");
    }
    assert(prefixes_rise_upto(454)) by {
        reveal_strlit("decade");
        reveal_strlit("december");
    }
    assert(prefixes_rise_upto(455)) by {
        reveal_strlit("december");
        reveal_strlit("decide");
    }
    assert(prefixes_rise_upto(456)) by {
        reveal_strlit("decide");
        reveal_strlit("decline");
    }
    assert(prefixes_rise_upto(457)) by {
        reveal_strlit("decline");
        reveal_strlit("decorate");
    }
    assert(prefixes_rise_upto(458)) by {
        reveal_strlit("decorate");
        reveal_strlit("decrease");
    }
    assert(prefixes_rise_upto(459)) by {
        reveal_strlit("decrease");
        reveal_strlit("deer");
    }
    assert(prefixes_rise_upto(460)) by {
        reveal_strlit("deer");
        reveal_strlit("defense");
    }
    assert(prefixes_rise_upto(461)) by {
        reveal_strlit("defense");
        reveal_strlit("define");
    }
    assert(prefixes_rise_upto(462)) by {
        reveal_strlit("define");
        reveal_strlit("defy");
    }
    assert(prefixes_rise_upto(463)) by {
        reveal_strlit("defy");
        reveal_strlit("degree");
    }
    assert(prefixes_rise_upto(464)) by {
        reveal_strlit("degree");
        reveal_strlit("delay");
    }
    assert(prefixes_rise_upto(465)) by {
        reveal_strlit("delay");
        reveal_strlit("deliver");
    }
    assert(prefixes_rise_upto(466)) by {
        reveal_strlit("deliver");
        reveal_strlit("demand");
    }
    assert(prefixes_rise_upto(467)) by {
        reveal_strlit("demand");
        reveal_strlit("demise");
    }
    assert(prefixes_rise_upto(468)) by {
        reveal_strlit("demise");
        reveal_strlit("denial");
    }
    assert(prefixes_rise_upto(469)) by {
        reveal_strlit("denial");
        reveal_strlit("dentist");
    }
    assert(prefixes_rise_upto(470)) by {
        reveal_strlit("dentist");
        reveal_strlit("deny");
    }
    assert(prefixes_rise_upto(471)) by {
        reveal_strlit("deny");
        reveal_strlit("depart");
    }
    assert(prefixes_rise_upto(472)) by {
        reveal_strlit("depart");
        reveal_strlit("depend");
    }
    assert(prefixes_rise_upto(473)) by {
        reveal_strlit("depend");
        reveal_strlit("deposit");
    }
    assert(prefixes_rise_upto(474)) by {
        reveal_strlit("deposit");
        reveal_strlit("depth");
    }
    assert(prefixes_rise_upto(475)) by {
        reveal_strlit("depth");
        reveal_strlit("deputy");
    }
    assert(prefixes_rise_upto(476)) by {
        reveal_strlit("deputy");
        reveal_strlit("derive");
    }
    assert(prefixes_rise_upto(477)) by {
        reveal_strlit("derive");
        reveal_strlit("describe");
    }
    assert(prefixes_rise_upto(478)) by {
        reveal_strlit("describe");
        reveal_strlit("desert");
    }
    assert(prefixes_rise_upto(479)) by {
        reveal_strlit("desert");
        reveal_strlit("design");
    }
    assert(prefixes_rise_upto(480)) by {
        reveal_strlit("design");
        reveal_strlit("desk");
    }
}

#[verifier::rlimit(30)]
proof fn lemma_prefix_block_15()
    requires
        prefixes_rise_upto(480),
    ensures
        prefixes_rise_upto(512),
{
    assert(prefixes_rise_upto(481)) by {
        reveal_strlit("desk");
        reveal_strlit("despair");
    }
    assert(prefixes_rise_upto(482)) by {
        reveal_strlit("despair");
        reveal_strlit("destroy");
    }
    assert(prefixes_rise_upto(483)) by {
        reveal_strlit("destroy");
        reveal_strlit("detail");
    }
    assert(prefixes_rise_upto(484)) by {
        reveal_strlit("detail");
        reveal_strlit("detect");
    }
    assert(prefixes_rise_upto(485)) by {
        reveal_strlit("detect");
        reveal_strlit("develop");
    }
    assert(prefixes_rise_upto(486)) by {
        reveal_strlit("develop");
        reveal_strlit("device");
    }
    assert(prefixes_rise_upto(487)) by {
        reveal_strlit("device");
        reveal_strlit("devote");
    }
    assert(prefixes_rise_upto(488)) by {
        reveal_strlit("devote");
        reveal_strlit("diagram");
    }
    assert(prefixes_rise_upto(489)) by {
        reveal_strlit("diagram");
        reveal_strlit("dial");
    }
    assert(prefixes_rise_upto(490)) by {
        reveal_strlit("dial");
        reveal_strlit("diamond");
    }
    assert(prefixes_rise_upto(491)) by {
        reveal_strlit("diamond");
        reveal_strlit("diary");
    }
    assert(prefixes_rise_upto(492)) by {
        reveal_strlit("diary");
        reveal_strlit("dice");
    }
    assert(prefixes_rise_upto(493)) by {
        reveal_strlit("dice");
        reveal_strlit("diesel");
    }
    assert(prefixes_rise_upto(494)) by {
        reveal_strlit("diesel");
        reveal_strlit("diet");
    }
    assert(prefixes_rise_upto(495)) by {
        reveal_strlit("diet");
        reveal_strlit("differ");
    }
    assert(prefixes_rise_upto(496)) by {
        reveal_strlit("differ");
        reveal_strlit("digital");
    }
    assert(prefixes_rise_upto(497)) by {
        reveal_strlit("digital");
        reveal_strlit("dignity");
    }
    assert(prefixes_rise_upto(498)) by {
        reveal_strlit("dignity");
        reveal_strlit("dilemma");
    }
    assert(prefixes_rise_upto(499)) by {
        reveal_strlit("dilemma");
        reveal_strlit("dinner");
    }
    assert(prefixes_rise_upto(500)) by {
        reveal_strlit("dinner");
        reveal_strlit("dinosaur");
    }
    assert(prefixes_rise_upto(501)) by {
        reveal_strlit("dinosaur");
        reveal_strlit("direct");
    }
    assert(prefixes_rise_upto(502)) by {
        reveal_strlit("direct");
        reveal_strlit("dirt");
    }
    assert(prefixes_rise_upto(503)) by {
        reveal_strlit("dirt");
        reveal_strlit("disagree");
    }
    assert(prefixes_rise_upto(504)) by {
        reveal_strlit("disagree");
        reveal_strlit("discover");
    }
    assert(prefixes_rise_upto(505)) by {
        reveal_strlit("discover");
        reveal_strlit("disease");
    }
    assert(prefixes_rise_upto(506)) by {
        reveal_strlit("disease");
        reveal_strlit("dish");
    }
    assert(prefixes_rise_upto(507)) by {
        reveal_strlit("dish");
        reveal_strlit("dismiss");
    }
    assert(prefixes_rise_upto(508)) by {
        reveal_strlit("dismiss");
        reveal_strlit("disorder");
    }
    assert(prefixes_rise_upto(509)) by {
        reveal_strlit("disorder");
        reveal_strlit("display");
    }
    assert(prefixes_rise_upto(510)) by {
        reveal_strlit("display");
        reveal_strlit("distance");
    }
    assert(prefixes_rise_upto(511)) by {
        reveal_strlit("distance");
        reveal_strlit("divert");
    }
    assert(prefixes_rise_upto(512)) by {
        reveal_strlit("divert");
        reveal_strlit("divide");
    }
}

#[verifier::rlimit(30)]
proof fn lemma_prefix_block_16()
    requires
        prefixes_rise_upto(512),
    ensures
        prefixes_rise_upto(544),
{
    assert(prefixes_rise_upto(513)) by {
        reveal_strlit("divide");
        reveal_strlit("divorce");
    }
    assert(prefixes_rise_upto(514)) by {
        reveal_strlit("divorce");
        reveal_strlit("dizzy");
    }
    assert(prefixes_rise_upto(515)) by {
        reveal_strlit("dizzy");
        reveal_strlit("doctor");
    }
    assert(prefixes_rise_upto(516)) by {
        reveal_strlit("doctor");
        reveal_strlit("document");
    }
    assert(prefixes_rise_upto(517)) by {
        reveal_strlit("document");
        reveal_strlit("dog");
    }
    assert(prefixes_rise_upto(518)) by {
        reveal_strlit("dog");
        reveal_strlit("doll");
    }
    assert(prefixes_rise_upto(519)) by {
        reveal_strlit("doll");
        reveal_strlit("dolphin");
    }
    assert(prefixes_rise_upto(520)) by {
        reveal_strlit("dolphin");
        reveal_strlit("domain");
    }
    assert(prefixes_rise_upto(521)) by {
        reveal_strlit("domain");
        reveal_strlit("donate");
    }
    assert(prefixes_rise_upto(522)) by {
        reveal_strlit("donate");
        reveal_strlit("donkey");
    }
    assert(prefixes_rise_upto(523)) by {
        reveal_strlit("donkey");
        reveal_strlit("donor");
    }
    assert(prefixes_rise_upto(524)) by {
        reveal_strlit("donor");
        reveal_strlit("door");
    }
    assert(prefixes_rise_upto(525)) by {
        reveal_strlit("door");
        reveal_strlit("dose");
    }
    assert(prefixes_rise_upto(526)) by {
        reveal_strlit("dose");
        reveal_strlit("double");
    }
    assert(prefixes_rise_upto(527)) by {
        reveal_strlit("double");
        reveal_strlit("dove");
    }
    assert(prefixes_rise_upto(528)) by {
        reveal_strlit("dove");
        reveal_strlit("draft");
    }
    assert(prefixes_rise_upto(529)) by {
        reveal_strlit("draft");
        reveal_strlit("dragon");
    }
    assert(prefixes_rise_upto(530)) by {
        reveal_strlit("dragon");
        reveal_strlit("drama");
    }
    assert(prefixes_rise_upto(531)) by {
        reveal_strlit("drama");
        reveal_strlit("drastic");
    }
    assert(prefixes_rise_upto(532)) by {
        reveal_strlit("drastic");
        reveal_strlit("draw");
    }
    assert(prefixes_rise_upto(533)) by {
        reveal_strlit("draw");
        reveal_strlit("dream");
    }
    assert(prefixes_rise_upto(534)) by {
        reveal_strlit("dream");
        reveal_strlit("dress");
    }
    assert(prefixes_rise_upto(535)) by {
        reveal_strlit("dress");
        reveal_strlit("drift");
    }
    assert(prefixes_rise_upto(536)) by {
        reveal_strlit("drift");
        reveal_strlit("drill");
    }
    assert(prefixes_rise_upto(537)) by {
        reveal_strlit("drill");
        reveal_strlit("drink");
    }
    assert(prefixes_rise_upto(538)) by {
        reveal_strlit("drink");
        reveal_strlit("drip");
    }
    assert(prefixes_rise_upto(539)) by {
        reveal_strlit("drip");
        reveal_strlit("drive");
    }
    assert(prefixes_rise_upto(540)) by {
        reveal_strlit("drive");
        reveal_strlit("drop");
    }
    assert(prefixes_rise_upto(541)) by {
        reveal_strlit("drop");
        reveal_strlit("drum");
    }
    assert(prefixes_rise_upto(542)) by {
        reveal_strlit("drum");
        reveal_strlit("dry");
    }
    assert(prefixes_rise_upto(543)) by {
        reveal_strlit("dry");
        reveal_strlit("duck");
    }
    assert(prefixes_rise_upto(544)) by {
        reveal_strlit("duck");
        reveal_strlit("dumb");
    }
}

#[verifier::rlimit(30)]
proof fn lemma_prefix_block_17()
    requires
        prefixes_rise_upto(544),
    ensures
        prefixes_rise_upto(576),
{
    assert(prefixes_rise_upto(545)) by {
        reveal_strlit("dumb");
        reveal_strlit("dune");
    }
    assert(prefixes_rise_upto(546)) by {
        reveal_strlit("dune");
        reveal_strlit("during");
    }
    assert(prefixes_rise_upto(547)) by {
        reveal_strlit("during");
        reveal_strlit("dust");
    }
    assert(prefixes_rise_upto(548)) by {
        reveal_strlit("dust");
        reveal_strlit("dutch");
    }
    assert(prefixes_rise_upto(549)) by {
        reveal_strlit("dutch");
        reveal_strlit("duty");
    }
    assert(prefixes_rise_upto(550)) by {
        reveal_strlit("duty");
        reveal_strlit("dwarf");
    }
    assert(prefixes_rise_upto(551)) by {
        reveal_strlit("dwarf");
        reveal_strlit("dynamic");
    }
    assert(prefixes_rise_upto(552)) by {
        reveal_strlit("dynamic");
        reveal_strlit("eager");
    }
    assert(prefixes_rise_upto(553)) by {
        reveal_strlit("eager");
        reveal_strlit("eagle");
    }
    assert(prefixes_rise_upto(554)) by {
        reveal_strlit("eagle");
        reveal_strlit("early");
    }
    assert(prefixes_rise_upto(555)) by {
        reveal_strlit("early");
        reveal_strlit("earn");
    }
    assert(prefixes_rise_upto(556)) by {
        reveal_strlit("earn");
        reveal_strlit("earth");
    }
    assert(prefixes_rise_upto(557)) by {
        reveal_strlit("earth");
        reveal_strlit("easily");
    }
    assert(prefixes_rise_upto(558)) by {
        reveal_strlit("easily");
        reveal_strlit("east");
    }
    assert(prefixes_rise_upto(559)) by {
        reveal_strlit("east");
        reveal_strlit("easy");
    }
    assert(prefixes_rise_upto(560)) by {
        reveal_strlit("easy");
        reveal_strlit("echo");
    }
    assert(prefixes_rise_upto(561)) by {
        reveal_strlit("echo");
        reveal_strlit("ecology");
    }
    assert(prefixes_rise_upto(562)) by {
        reveal_strlit("ecology");
        reveal_strlit("economy");
    }
    assert(prefixes_rise_upto(563)) by {
        reveal_strlit("economy");
        reveal_strlit("edge");
    }
    assert(prefixes_rise_upto(564)) by {
        reveal_strlit("edge");
        reveal_strlit("edit");
    }
    assert(prefixes_rise_upto(565)) by {
        reveal_strlit("edit");
        reveal_strlit("educate");
    }
    assert(prefixes_rise_upto(566)) by {
        reveal_strlit("educate");
        reveal_strlit("effort");
    }
    assert(prefixes_rise_upto(567)) by {
        reveal_strlit("effort");
        reveal_strlit("egg");
    }
    assert(prefixes_rise_upto(568)) by {
        reveal_strlit("egg");
        reveal_strlit("eight");
    }
    assert(prefixes_rise_upto(569)) by {
        reveal_strlit("eight");
        reveal_strlit("either");
    }
    assert(prefixes_rise_upto(570)) by {
        reveal_strlit("either");
        reveal_strlit("elbow");
    }
    assert(prefixes_rise_upto(571)) by {
        reveal_strlit("elbow");
        reveal_strlit("elder");
    }
    assert(prefixes_rise_upto(572)) by {
        reveal_strlit("elder");
        reveal_strlit("electric");
    }
    assert(prefixes_rise_upto(573)) by {
        reveal_strlit("electric");
        reveal_strlit("elegant");
    }
    assert(prefixes_rise_upto(574)) by {
        reveal_strlit("elegant");
        reveal_strlit("element");
    }
    assert(prefixes_rise_upto(575)) by {
        reveal_strlit("element");
        reveal_strlit("elephant");
    }
    assert(prefixes_rise_upto(576)) by {
        reveal_strlit("elephant");
        reveal_strlit("elevator");
    }
}

#[verifier::rlimit(30)]
proof fn lemma_prefix_block_18()
    requires
        prefixes_rise_upto(576),
    ensures
        prefixes_rise_upto(608),
{
    assert(prefixes_rise_upto(577)) by {
        reveal_strlit("elevator");
        reveal_strlit("elite");
    }
    assert(prefixes_rise_upto(578)) by {
        reveal_strlit("elite");
        reveal_strlit("else");
    }
    assert(prefixes_rise_upto(579)) by {
        reveal_strlit("else");
        reveal_strlit("embark");
    }
    assert(prefixes_rise_upto(580)) by {
        reveal_strlit("embark");
        reveal_strlit("embody");
    }
    assert(prefixes_rise_upto(581)) by {
        reveal_strlit("embody");
        reveal_strlit("embrace");
    }
    assert(prefixes_rise_upto(582)) by {
        reveal_strlit("embrace");
        reveal_strlit("emerge");
    }
    assert(prefixes_rise_upto(583)) by {
        reveal_strlit("emerge");
        reveal_strlit("emotion");
    }
    assert(prefixes_rise_upto(584)) by {
        reveal_strlit("emotion");
        reveal_strlit("employ");
    }
    assert(prefixes_rise_upto(585)) by {
        reveal_strlit("employ");
        reveal_strlit("empower");
    }
    assert(prefixes_rise_upto(586)) by {
        reveal_strlit("empower");
        reveal_strlit("empty");
    }
    assert(prefixes_rise_upto(587)) by {
        reveal_strlit("empty");
        reveal_strlit("enable");
    }
    assert(prefixes_rise_upto(588)) by {
        reveal_strlit("enable");
        reveal_strlit("enact");
    }
    assert(prefixes_rise_upto(589)) by {
        reveal_strlit("enact");
        reveal_strlit("end");
    }
    assert(prefixes_rise_upto(590)) by {
        reveal_strlit("end");
        reveal_strlit("endless");
    }
    assert(prefixes_rise_upto(591)) by {
        reveal_strlit("endless");
        reveal_strlit("endorse");
    }
    assert(prefixes_rise_upto(592)) by {
        reveal_strlit("endorse");
        reveal_strlit("enemy");
    }
    assert(prefixes_rise_upto(593)) by {
        reveal_strlit("enemy");
        reveal_strlit("energy");
    }
    assert(prefixes_rise_upto(594)) by {
        reveal_strlit("energy");
        reveal_strlit("enforce");
    }
    assert(prefixes_rise_upto(595)) by {
        reveal_strlit("enforce");
        reveal_strlit("engage");
    }
    assert(prefixes_rise_upto(596)) by {
        reveal_strlit("engage");
        reveal_strlit("engine");
    }
    assert(prefixes_rise_upto(597)) by {
        reveal_strlit("engine");
        reveal_strlit("enhance");
    }
    assert(prefixes_rise_upto(598)) by {
        reveal_strlit("enhance");
        reveal_strlit("enjoy");
    }
    assert(prefixes_rise_upto(599)) by {
        reveal_strlit("enjoy");
        reveal_strlit("enlist");
    }
    assert(prefixes_rise_upto(600)) by {
        reveal_strlit("enlist");
        reveal_strlit("enough");
    }
    assert(prefixes_rise_upto(601)) by {
        reveal_strlit("enough");
        reveal_strlit("enrich");
    }
    assert(prefixes_rise_upto(602)) by {
        reveal_strlit("enrich");
        reveal_strlit("enroll");
    }
    assert(prefixes_rise_upto(603)) by {
        reveal_strlit("enroll");
        reveal_strlit("ensure");
    }
    assert(prefixes_rise_upto(604)) by {
        reveal_strlit("ensure");
        reveal_strlit("enter");
    }
    assert(prefixes_rise_upto(605)) by {
        reveal_strlit("enter");
        reveal_strlit("entire");
    }
    assert(prefixes_rise_upto(606)) by {
        reveal_strlit("entire");
        reveal_strlit("entry");
    }
    assert(prefixes_rise_upto(607)) by {
        reveal_strlit("entry");
        reveal_strlit("envelope");
    }
    assert(prefixes_rise_upto(608)) by {
        reveal_strlit("envelope");
        reveal_strlit("episode");
    }
}

#[verifier::rlimit(30)]
proof fn lemma_prefix_block_19()
    requires
        prefixes_rise_upto(608),
    ensures
        prefixes_rise_upto(640),
{
    assert(prefixes_rise_upto(609)) by {
        reveal_strlit("episode");
        reveal_strlit("equal");
    }
    assert(prefixes_rise_upto(610)) by {
        reveal_strlit("equal");
        reveal_strlit("equip");
    }
    assert(prefixes_rise_upto(611)) by {
        reveal_strlit("equip");
        reveal_strlit("era");
    }
    assert(prefixes_rise_upto(612)) by {
        reveal_strlit("era");
        reveal_strlit("erase");
    }
    assert(prefixes_rise_upto(613)) by {
        reveal_strlit("erase");
        reveal_strlit("erode");
    }
    assert(prefixes_rise_upto(614)) by {
        reveal_strlit("erode");
        reveal_strlit("erosion");
    }
    assert(prefixes_rise_upto(615)) by {
        reveal_strlit("erosion");
        reveal_strlit("error");
    }
    assert(prefixes_rise_upto(616)) by {
        reveal_strlit("error");
        reveal_strlit("erupt");
    }
    assert(prefixes_rise_upto(617)) by {
        reveal_strlit("erupt");
        reveal_strlit("escape");
    }
    assert(prefixes_rise_upto(618)) by {
        reveal_strlit("escape");
        reveal_strlit("essay");
    }
    assert(prefixes_rise_upto(619)) by {
        reveal_strlit("essay");
        reveal_strlit("essence");
    }
    assert(prefixes_rise_upto(620)) by {
        reveal_strlit("essence");
        reveal_strlit("estate");
    }
    assert(prefixes_rise_upto(621)) by {
        reveal_strlit("estate");
        reveal_strlit("eternal");
    }
    assert(prefixes_rise_upto(622)) by {
        reveal_strlit("eternal");
        reveal_strlit("ethics");
    }
    assert(prefixes_rise_upto(623)) by {
        reveal_strlit("ethics");
        reveal_strlit("evidence");
    }
    assert(prefixes_rise_upto(624)) by {
        reveal_strlit("evidence");
        reveal_strlit("evil");
    }
    assert(prefixes_rise_upto(625)) by {
        reveal_strlit("evil");
        reveal_strlit("evoke");
    }
    assert(prefixes_rise_upto(626)) by {
        reveal_strlit("evoke");
        reveal_strlit("evolve");
    }
    assert(prefixes_rise_upto(627)) by {
        reveal_strlit("evolve");
        reveal_strlit("exact");
    }
    assert(prefixes_rise_upto(628)) by {
        reveal_strlit("exact");
        reveal_strlit("example");
    }
    assert(prefixes_rise_upto(629)) by {
        reveal_strlit("example");
        reveal_strlit("excess");
    }
    assert(prefixes_rise_upto(630)) by {
        reveal_strlit("excess");
        reveal_strlit("exchange");
    }
    assert(prefixes_rise_upto(631)) by {
        reveal_strlit("exchange");
        reveal_strlit("excite");
    }
    assert(prefixes_rise_upto(632)) by {
        reveal_strlit("excite");
        reveal_strlit("exclude");
    }
    assert(prefixes_rise_upto(633)) by {
        reveal_strlit("exclude");
        reveal_strlit("excuse");
    }
    assert(prefixes_rise_upto(634)) by {
        reveal_strlit("excuse");
        reveal_strlit("execute");
    }
    assert(prefixes_rise_upto(635)) by {
        reveal_strlit("execute");
        reveal_strlit("exercise");
    }
    assert(prefixes_rise_upto(636)) by {
        reveal_strlit("exercise");
        reveal_strlit("exhaust");
    }
    assert(prefixes_rise_upto(637)) by {
        reveal_strlit("exhaust");
        reveal_strlit("exhibit");
    }
    assert(prefixes_rise_upto(638)) by {
        reveal_strlit("exhibit");
        reveal_strlit("exile");
    }
    assert(prefixes_rise_upto(639)) by {
        reveal_strlit("exile");
        reveal_strlit("exist");
    }
    assert(prefixes_rise_upto(640)) by {
        reveal_strlit("exist");
        reveal_strlit("exit");
    }
}

#[verifier::rlimit(30)]
proof fn lemma_prefix_block_20()
    requires
        prefixes_rise_upto(640),
    ensures
        prefixes_rise_upto(672),
{
    assert(prefixes_rise_upto(641)) by {
        reveal_strlit("exit");
        reveal_strlit("exotic");
    }
    assert(prefixes_rise_upto(642)) by {
        reveal_strlit("exotic");
        reveal_strlit("expand");
    }
    assert(prefixes_rise_upto(643)) by {
        reveal_strlit("expand");
        reveal_strlit("expect");
    }
    assert(prefixes_rise_upto(644)) by {
        reveal_strlit("expect");
        reveal_strlit("expire");
    }
    assert(prefixes_rise_upto(645)) by {
        reveal_strlit("expire");
        reveal_strlit("explain");
    }
    assert(prefixes_rise_upto(646)) by {
        reveal_strlit("explain");
        reveal_strlit("expose");
    }
    assert(prefixes_rise_upto(647)) by {
        reveal_strlit("expose");
        reveal_strlit("express");
    }
    assert(prefixes_rise_upto(648)) by {
        reveal_strlit("express");
        reveal_strlit("extend");
    }
    assert(prefixes_rise_upto(649)) by {
        reveal_strlit("extend");
        reveal_strlit("extra");
    }
    assert(prefixes_rise_upto(650)) by {
        reveal_strlit("extra");
        reveal_strlit("eye");
    }
    assert(prefixes_rise_upto(651)) by {
        reveal_strlit("eye");
        reveal_strlit("eyebrow");
    }
    assert(prefixes_rise_upto(652)) by {
        reveal_strlit("eyebrow");
        reveal_strlit("fabric");
    }
    assert(prefixes_rise_upto(653)) by {
        reveal_strlit("fabric");
        reveal_strlit("face");
    }
    assert(prefixes_rise_upto(654)) by {
        reveal_strlit("face");
        reveal_strlit("faculty");
    }
    assert(prefixes_rise_upto(655)) by {
        reveal_strlit("faculty");
        reveal_strlit("fade");
    }
    assert(prefixes_rise_upto(656)) by {
        reveal_strlit("fade");
        reveal_strlit("faint");
    }
    assert(prefixes_rise_upto(657)) by {
        reveal_strlit("faint");
        reveal_strlit("faith");
    }
    assert(prefixes_rise_upto(658)) by {
        reveal_strlit("faith");
        reveal_strlit("fall");
    }
    assert(prefixes_rise_upto(659)) by {
        reveal_strlit("fall");
        reveal_strlit("false");
    }
    assert(prefixes_rise_upto(660)) by {
        reveal_strlit("false");
        reveal_strlit("fame");
    }
    assert(prefixes_rise_upto(661)) by {
        reveal_strlit("fame");
        reveal_strlit("family");
    }
    assert(prefixes_rise_upto(662)) by {
        reveal_strlit("family");
        reveal_strlit("famous");
    }
    assert(prefixes_rise_upto(663)) by {
        reveal_strlit("famous");
        reveal_strlit("fan");
    }
    assert(prefixes_rise_upto(664)) by {
        reveal_strlit("fan");
        reveal_strlit("fancy");
    }
    assert(prefixes_rise_upto(665)) by {
        reveal_strlit("fancy");
        reveal_strlit("fantasy");
    }
    assert(prefixes_rise_upto(666)) by {
        reveal_strlit("fantasy");
        reveal_strlit("farm");
    }
    assert(prefixes_rise_upto(667)) by {
        reveal_strlit("farm");
        reveal_strlit("fashion");
    }
    assert(prefixes_rise_upto(668)) by {
        reveal_strlit("fashion");
        reveal_strlit("fat");
    }
    assert(prefixes_rise_upto(669)) by {
        reveal_strlit("fat");
        reveal_strlit("fatal");
    }
    assert(prefixes_rise_upto(670)) by {
        reveal_strlit("fatal");
        reveal_strlit("father");
    }
    assert(prefixes_rise_upto(671)) by {
        reveal_strlit("father");
        reveal_strlit("fatigue");
    }
    assert(prefixes_rise_upto(672)) by {
        reveal_strlit("fatigue");
        reveal_strlit("fault");
    }
}

#[verifier::rlimit(30)]
proof fn lemma_prefix_block_21()
    requires
        prefixes_rise_upto(672),
    ensures
        prefixes_rise_upto(704),
{
    assert(prefixes_rise_upto(673)) by {
        reveal_strlit("fault");
        reveal_strlit("favorite");
    }
    assert(prefixes_rise_upto(674)) by {
        reveal_strlit("favorite");
        reveal_strlit("feature");
    }
    assert(prefixes_rise_upto(675)) by {
        reveal_strlit("feature");
        reveal_strlit("february");
    }
    assert(prefixes_rise_upto(676)) by {
        reveal_strlit("february");
        reveal_strlit("federal");
    }
    assert(prefixes_rise_upto(677)) by {
        reveal_strlit("federal");
        reveal_strlit("fee");
    }
    assert(prefixes_rise_upto(678)) by {
        reveal_strlit("fee");
        reveal_strlit("feed");
    }
    assert(prefixes_rise_upto(679)) by {
        reveal_strlit("feed");
        reveal_strlit("feel");
    }
    assert(prefixes_rise_upto(680)) by {
        reveal_strlit("feel");
        reveal_strlit("female");
    }
    assert(prefixes_rise_upto(681)) by {
        reveal_strlit("female");
        reveal_strlit("fence");
    }
    assert(prefixes_rise_upto(682)) by {
        reveal_strlit("fence");
        reveal_strlit("festival");
    }
    assert(prefixes_rise_upto(683)) by {
        reveal_strlit("festival");
        reveal_strlit("fetch");
    }
    assert(prefixes_rise_upto(684)) by {
        reveal_strlit("fetch");
        reveal_strlit("fever");
    }
    assert(prefixes_rise_upto(685)) by {
        reveal_strlit("fever");
        reveal_strlit("few");
    }
    assert(prefixes_rise_upto(686)) by {
        reveal_strlit("few");
        reveal_strlit("fiber");
    }
    assert(prefixes_rise_upto(687)) by {
        reveal_strlit("fiber");
        reveal_strlit("fiction");
    }
    assert(prefixes_rise_upto(688)) by {
        reveal_strlit("fiction");
        reveal_strlit("field");
    }
    assert(prefixes_rise_upto(689)) by {
        reveal_strlit("field");
        reveal_strlit("figure");
    }
    assert(prefixes_rise_upto(690)) by {
        reveal_strlit("figure");
        reveal_strlit("file");
    }
    assert(prefixes_rise_upto(691)) by {
        reveal_strlit("file");
        reveal_strlit("film");
    }
    assert(prefixes_rise_upto(692)) by {
        reveal_strlit("film");
        reveal_strlit("filter");
    }
    assert(prefixes_rise_upto(693)) by {
        reveal_strlit("filter");
        reveal_strlit("final");
    }
    assert(prefixes_rise_upto(694)) by {
        reveal_strlit("final");
        reveal_strlit("find");
    }
    assert(prefixes_rise_upto(695)) by {
        reveal_strlit("find");
        reveal_strlit("fine");
    }
    assert(prefixes_rise_upto(696)) by {
        reveal_strlit("fine");
        reveal_strlit("finger");
    }
    assert(prefixes_rise_upto(697)) by {
        reveal_strlit("finger");
        reveal_strlit("finish");
    }
    assert(prefixes_rise_upto(698)) by {
        reveal_strlit("finish");
        reveal_strlit("fire");
    }
    assert(prefixes_rise_upto(699)) by {
        reveal_strlit("fire");
        reveal_strlit("firm");
    }
    assert(prefixes_rise_upto(700)) by {
        reveal_strlit("firm");
        reveal_strlit("first");
    }
    assert(prefixes_rise_upto(701)) by {
        reveal_strlit("first");
        reveal_strlit("fiscal");
    }
    assert(prefixes_rise_upto(702)) by {
        reveal_strlit("fiscal");
        reveal_strlit("fish");
    }
    assert(prefixes_rise_upto(703)) by {
        reveal_strlit("fish");
        reveal_strlit("fit");
    }
    assert(prefixes_rise_upto(704)) by {
        reveal_strlit("fit");
        reveal_strlit("fitness");
    }
}

#[verifier::rlimit(30)]
proof fn lemma_prefix_block_22()
    requires
        prefixes_rise_upto(704),
    ensures
        prefixes_rise_upto(736),
{
    assert(prefixes_rise_upto(705)) by {
        reveal_strlit("fitness");
        reveal_strlit("fix");
    }
    assert(prefixes_rise_upto(706)) by {
        reveal_strlit("fix");
        reveal_strlit("flag");
    }
    assert(prefixes_rise_upto(707)) by {
        reveal_strlit("flag");
        reveal_strlit("flame");
    }
    assert(prefixes_rise_upto(708)) by {
        reveal_strlit("flame");
        reveal_strlit("flash");
    }
    assert(prefixes_rise_upto(709)) by {
        reveal_strlit("flash");
        reveal_strlit("flat");
    }
    assert(prefixes_rise_upto(710)) by {
        reveal_strlit("flat");
        reveal_strlit("flavor");
    }
    assert(prefixes_rise_upto(711)) by {
        reveal_strlit("flavor");
        reveal_strlit("flee");
    }
    assert(prefixes_rise_upto(712)) by {
        reveal_strlit("flee");
        reveal_strlit("flight");
    }
    assert(prefixes_rise_upto(713)) by {
        reveal_strlit("flight");
        reveal_strlit("flip");
    }
    assert(prefixes_rise_upto(714)) by {
        reveal_strlit("flip");
        reveal_strlit("float");
    }
    assert(prefixes_rise_upto(715)) by {
        reveal_strlit("float");
        reveal_strlit("flock");
    }
    assert(prefixes_rise_upto(716)) by {
        reveal_strlit("flock");
        reveal_strlit("floor");
    }
    assert(prefixes_rise_upto(717)) by {
        reveal_strlit("floor");
        reveal_strlit("flower");
    }
    assert(prefixes_rise_upto(718)) by {
        reveal_strlit("flower");
        reveal_strlit("fluid");
    }
    assert(prefixes_rise_upto(719)) by {
        reveal_strlit("fluid");
        reveal_strlit("flush");
    }
    assert(prefixes_rise_upto(720)) by {
        reveal_strlit("flush");
        reveal_strlit("fly");
    }
    assert(prefixes_rise_upto(721)) by {
        reveal_strlit("fly");
        reveal_strlit("foam");
    }
    assert(prefixes_rise_upto(722)) by {
        reveal_strlit("foam");
        reveal_strlit("focus");
    }
    assert(prefixes_rise_upto(723)) by {
        reveal_strlit("focus");
        reveal_strlit("fog");
    }
    assert(prefixes_rise_upto(724)) by {
        reveal_strlit("fog");
        reveal_strlit("foil");
    }
    assert(prefixes_rise_upto(725)) by {
        reveal_strlit("foil");
        reveal_strlit("fold");
    }
    assert(prefixes_rise_upto(726)) by {
        reveal_strlit("fold");
        reveal_strlit("follow");
    }
    assert(prefixes_rise_upto(727)) by {
        reveal_strlit("follow");
        reveal_strlit("food");
    }
    assert(prefixes_rise_upto(728)) by {
        reveal_strlit("food");
        reveal_strlit("foot");
    }
    assert(prefixes_rise_upto(729)) by {
        reveal_strlit("foot");
        reveal_strlit("force");
    }
    assert(prefixes_rise_upto(730)) by {
        reveal_strlit("force");
        reveal_strlit("forest");
    }
    assert(prefixes_rise_upto(731)) by {
        reveal_strlit("forest");
        reveal_strlit("forget");
    }
    assert(prefixes_rise_upto(732)) by {
        reveal_strlit("forget");
        reveal_strlit("fork");
    }
    assert(prefixes_rise_upto(733)) by {
        reveal_strlit("fork");
        reveal_strlit("fortune");
    }
    assert(prefixes_rise_upto(734)) by {
        reveal_strlit("fortune");
        reveal_strlit("forum");
    }
    assert(prefixes_rise_upto(735)) by {
        reveal_strlit("forum");
        reveal_strlit("forward");
    }
    assert(prefixes_rise_upto(736)) by {
        reveal_strlit("forward");
        reveal_strlit("fossil");
    }
}

#[verifier::rlimit(30)]
proof fn lemma_prefix_block_23()
    requires
        prefixes_rise_upto(736),
    ensures
        prefixes_rise_upto(768),
{
    assert(prefixes_rise_upto(737)) by {
        reveal_strlit("fossil");
        reveal_strlit("foster");
    }
    assert(prefixes_rise_upto(738)) by {
        reveal_strlit("foster");
        reveal_strlit("found");
    }
    assert(prefixes_rise_upto(739)) by {
        reveal_strlit("found");
        reveal_strlit("fox");
    }
    assert(prefixes_rise_upto(740)) by {
        reveal_strlit("fox");
        reveal_strlit("fragile");
    }
    assert(prefixes_rise_upto(741)) by {
        reveal_strlit("fragile");
        reveal_strlit("frame");
    }
    assert(prefixes_rise_upto(742)) by {
        reveal_strlit("frame");
        reveal_strlit("frequent");
    }
    assert(prefixes_rise_upto(743)) by {
        reveal_strlit("frequent");
        reveal_strlit("fresh");
    }
    assert(prefixes_rise_upto(744)) by {
        reveal_strlit("fresh");
        reveal_strlit("friend");
    }
    assert(prefixes_rise_upto(745)) by {
        reveal_strlit("friend");
        reveal_strlit("fringe");
    }
    assert(prefixes_rise_upto(746)) by {
        reveal_strlit("fringe");
        reveal_strlit("frog");
    }
    assert(prefixes_rise_upto(747)) by {
        reveal_strlit("frog");
        reveal_strlit("front");
    }
    assert(prefixes_rise_upto(748)) by {
        reveal_strlit("front");
        reveal_strlit("frost");
    }
    assert(prefixes_rise_upto(749)) by {
        reveal_strlit("frost");
        reveal_strlit("frown");
    }
    assert(prefixes_rise_upto(750)) by {
        reveal_strlit("frown");
        reveal_strlit("frozen");
    }
    assert(prefixes_rise_upto(751)) by {
        reveal_strlit("frozen");
        reveal_strlit("fruit");
    }
    assert(prefixes_rise_upto(752)) by {
        reveal_strlit("fruit");
        reveal_strlit("fuel");
    }
    assert(prefixes_rise_upto(753)) by {
        reveal_strlit("fuel");
        reveal_strlit("fun");
    }
    assert(prefixes_rise_upto(754)) by {
        reveal_strlit("fun");
        reveal_strlit("funny");
    }
    assert(prefixes_rise_upto(755)) by {
        reveal_strlit("funny");
        reveal_strlit("furnace");
    }
    assert(prefixes_rise_upto(756)) by {
        reveal_strlit("furnace");
        reveal_strlit("fury");
    }
    assert(prefixes_rise_upto(757)) by {
        reveal_strlit("fury");
        reveal_strlit("future");
    }
    assert(prefixes_rise_upto(758)) by {
        reveal_strlit("future");
        reveal_strlit("gadget");
    }
    assert(prefixes_rise_upto(759)) by {
        reveal_strlit("gadget");
        reveal_strlit("gain");
    }
    assert(prefixes_rise_upto(760)) by {
        reveal_strlit("gain");
        reveal_strlit("galaxy");
    }
    assert(prefixes_rise_upto(761)) by {
        reveal_strlit("galaxy");
        reveal_strlit("gallery");
    }
    assert(prefixes_rise_upto(762)) by {
        reveal_strlit("gallery");
        reveal_strlit("game");
    }
    assert(prefixes_rise_upto(763)) by {
        reveal_strlit("game");
        reveal_strlit("gap");
    }
    assert(prefixes_rise_upto(764)) by {
        reveal_strlit("gap");
        reveal_strlit("garage");
    }
    assert(prefixes_rise_upto(765)) by {
        reveal_strlit("garage");
        reveal_strlit("garbage");
    }
    assert(prefixes_rise_upto(766)) by {
        reveal_strlit("garbage");
        reveal_strlit("garden");
    }
    assert(prefixes_rise_upto(767)) by {
        reveal_strlit("garden");
        reveal_strlit("garlic");
    }
    assert(prefixes_rise_upto(768)) by {
        reveal_strlit("garlic");
        reveal_strlit("garment");
    }
}

#[verifier::rlimit(30)]
proof fn lemma_prefix_block_24()
    requires
        prefixes_rise_upto(768),
    ensures
        prefixes_rise_upto(800),
{
    assert(prefixes_rise_upto(769)) by {
        reveal_strlit("garment");
        reveal_strlit("gas");
    }
    assert(prefixes_rise_upto(770)) by {
        reveal_strlit("gas");
        reveal_strlit("gasp");
    }
    assert(prefixes_rise_upto(771)) by {
        reveal_strlit("gasp");
        reveal_strlit("gate");
    }
    assert(prefixes_rise_upto(772)) by {
        reveal_strlit("gate");
        reveal_strlit("gather");
    }
    assert(prefixes_rise_upto(773)) by {
        reveal_strlit("gather");
        reveal_strlit("gauge");
    }
    assert(prefixes_rise_upto(774)) by {
        reveal_strlit("gauge");
        reveal_strlit("gaze");
    }
    assert(prefixes_rise_upto(775)) by {
        reveal_strlit("gaze");
        reveal_strlit("general");
    }
    assert(prefixes_rise_upto(776)) by {
        reveal_strlit("general");
        reveal_strlit("genius");
    }
    assert(prefixes_rise_upto(777)) by {
        reveal_strlit("genius");
        reveal_strlit("genre");
    }
    assert(prefixes_rise_upto(778)) by {
        reveal_strlit("genre");
        reveal_strlit("gentle");
    }
    assert(prefixes_rise_upto(779)) by {
        reveal_strlit("gentle");
        reveal_strlit("genuine");
    }
    assert(prefixes_rise_upto(780)) by {
        reveal_strlit("genuine");
        reveal_strlit("gesture");
    }
    assert(prefixes_rise_upto(781)) by {
        reveal_strlit("gesture");
        reveal_strlit("ghost");
    }
    assert(prefixes_rise_upto(782)) by {
        reveal_strlit("ghost");
        reveal_strlit("giant");
    }
    assert(prefixes_rise_upto(783)) by {
        reveal_strlit("giant");
        reveal_strlit("gift");
    }
    assert(prefixes_rise_upto(784)) by {
        reveal_strlit("gift");
        reveal_strlit("giggle");
    }
    assert(prefixes_rise_upto(785)) by {
        reveal_strlit("giggle");
        reveal_strlit("ginger");
    }
    assert(prefixes_rise_upto(786)) by {
        reveal_strlit("ginger");
        reveal_strlit("giraffe");
    }
    assert(prefixes_rise_upto(787)) by {
        reveal_strlit("giraffe");
        reveal_strlit("girl");
    }
    assert(prefixes_rise_upto(788)) by {
        reveal_strlit("girl");
        reveal_strlit("give");
    }
    assert(prefixes_rise_upto(789)) by {
        reveal_strlit("give");
        reveal_strlit("glad");
    }
    assert(prefixes_rise_upto(790)) by {
        reveal_strlit("glad");
        reveal_strlit("glance");
    }
    assert(prefixes_rise_upto(791)) by {
        reveal_strlit("glance");
        reveal_strlit("glare");
    }
    assert(prefixes_rise_upto(792)) by {
        reveal_strlit("glare");
        reveal_strlit("glass");
    }
    assert(prefixes_rise_upto(793)) by {
        reveal_strlit("glass");
        reveal_strlit("glide");
    }
    assert(prefixes_rise_upto(794)) by {
        reveal_strlit("glide");
        reveal_strlit("glimpse");
    }
    assert(prefixes_rise_upto(795)) by {
        reveal_strlit("glimpse");
        reveal_strlit("globe");
    }
    assert(prefixes_rise_upto(796)) by {
        reveal_strlit("globe");
        reveal_strlit("gloom");
    }
    assert(prefixes_rise_upto(797)) by {
        reveal_strlit("gloom");
        reveal_strlit("glory");
    }
    assert(prefixes_rise_upto(798)) by {
        reveal_strlit("glory");
        reveal_strlit("glove");
    }
    assert(prefixes_rise_upto(799)) by {
        reveal_strlit("glove");
        reveal_strlit("glow");
    }
    assert(prefixes_rise_upto(800)) by {
        reveal_strlit("glow");
        reveal_strlit("glue");
    }
}

#[verifier::rlimit(30)]
proof fn lemma_prefix_block_25()
    requires
        prefixes_rise_upto(800),
    ensures
        prefixes_rise_upto(832),
{
    assert(prefixes_rise_upto(801)) by {
        reveal_strlit("glue");
        reveal_strlit("goat");
    }
    assert(prefixes_rise_upto(802)) by {
        reveal_strlit("goat");
        reveal_strlit("goddess");
    }
    assert(prefixes_rise_upto(803)) by {
        reveal_strlit("goddess");
        reveal_strlit("gold");
    }
    assert(prefixes_rise_upto(804)) by {
        reveal_strlit("gold");
        reveal_strlit("good");
    }
    assert(prefixes_rise_upto(805)) by {
        reveal_strlit("good");
        reveal_strlit("goose");
    }
    assert(prefixes_rise_upto(806)) by {
        reveal_strlit("goose");
        reveal_strlit("gorilla");
    }
    assert(prefixes_rise_upto(807)) by {
        reveal_strlit("gorilla");
        reveal_strlit("gospel");
    }
    assert(prefixes_rise_upto(808)) by {
        reveal_strlit("gospel");
        reveal_strlit("gossip");
    }
    assert(prefixes_rise_upto(809)) by {
        reveal_strlit("gossip");
        reveal_strlit("govern");
    }
    assert(prefixes_rise_upto(810)) by {
        reveal_strlit("govern");
        reveal_strlit("gown");
    }
    assert(prefixes_rise_upto(811)) by {
        reveal_strlit("gown");
        reveal_strlit("grab");
    }
    assert(prefixes_rise_upto(812)) by {
        reveal_strlit("grab");
        reveal_strlit("grace");
    }
    assert(prefixes_rise_upto(813)) by {
        reveal_strlit("grace");
        reveal_strlit("grain");
    }
    assert(prefixes_rise_upto(814)) by {
        reveal_strlit("grain");
        reveal_strlit("grant");
    }
    assert(prefixes_rise_upto(815)) by {
        reveal_strlit("grant");
        reveal_strlit("grape");
    }
    assert(prefixes_rise_upto(816)) by {
        reveal_strlit("grape");
        reveal_strlit("grass");
    }
    assert(prefixes_rise_upto(817)) by {
        reveal_strlit("grass");
        reveal_strlit("gravity");
    }
    assert(prefixes_rise_upto(818)) by {
        reveal_strlit("gravity");
        reveal_strlit("great");
    }
    assert(prefixes_rise_upto(819)) by {
        reveal_strlit("great");
        reveal_strlit("green");
    }
    assert(prefixes_rise_upto(820)) by {
        reveal_strlit("green");
        reveal_strlit("grid");
    }
    assert(prefixes_rise_upto(821)) by {
        reveal_strlit("grid");
        reveal_strlit("grief");
    }
    assert(prefixes_rise_upto(822)) by {
        reveal_strlit("grief");
        reveal_strlit("grit");
    }
    assert(prefixes_rise_upto(823)) by {
        reveal_strlit("grit");
        reveal_strlit("grocery");
    }
    assert(prefixes_rise_upto(824)) by {
        reveal_strlit("grocery");
        reveal_strlit("group");
    }
    assert(prefixes_rise_upto(825)) by {
        reveal_strlit("group");
        reveal_strlit("grow");
    }
    assert(prefixes_rise_upto(826)) by {
        reveal_strlit("grow");
        reveal_strlit("grunt");
    }
    assert(prefixes_rise_upto(827)) by {
        reveal_strlit("grunt");
        reveal_strlit("guard");
    }
    assert(prefixes_rise_upto(828)) by {
        reveal_strlit("guard");
        reveal_strlit("guess");
    }
    assert(prefixes_rise_upto(829)) by {
        reveal_strlit("guess");
        reveal_strlit("guide");
    }
    assert(prefixes_rise_upto(830)) by {
        reveal_strlit("guide");
        reveal_strlit("guilt");
    }
    assert(prefixes_rise_upto(831)) by {
        reveal_strlit("guilt");
        reveal_strlit("guitar");
    }
    assert(prefixes_rise_upto(832)) by {
        reveal_strlit("guitar");
        reveal_strlit("gun");
    }
}

#[verifier::rlimit(30)]
proof fn lemma_prefix_block_26()
    requires
        prefixes_rise_upto(832),
    ensures
        prefixes_rise_upto(864),
{
    assert(prefixes_rise_upto(833)) by {
        reveal_strlit("gun");
        reveal_strlit("gym");
    }
    assert(prefixes_rise_upto(834)) by {
        reveal_strlit("gym");
        reveal_strlit("habit");
    }
    assert(prefixes_rise_upto(835)) by {
        reveal_strlit("habit");
        reveal_strlit("hair");
    }
    assert(prefixes_rise_upto(836)) by {
        reveal_strlit("hair");
        reveal_strlit("half");
    }
    assert(prefixes_rise_upto(837)) by {
        reveal_strlit("half");
        reveal_strlit("hammer");
    }
    assert(prefixes_rise_upto(838)) by {
        reveal_strlit("hammer");
        reveal_strlit("hamster");
    }
    assert(prefixes_rise_upto(839)) by {
        reveal_strlit("hamster");
        reveal_strlit("hand");
    }
    assert(prefixes_rise_upto(840)) by {
        reveal_strlit("hand");
        reveal_strlit("happy");
    }
    assert(prefixes_rise_upto(841)) by {
        reveal_strlit("happy");
        reveal_strlit("harbor");
    }
    assert(prefixes_rise_upto(842)) by {
        reveal_strlit("harbor");
        reveal_strlit("hard");
    }
    assert(prefixes_rise_upto(843)) by {
        reveal_strlit("hard");
        reveal_strlit("harsh");
    }
    assert(prefixes_rise_upto(844)) by {
        reveal_strlit("harsh");
        reveal_strlit("harvest");
    }
    assert(prefixes_rise_upto(845)) by {
        reveal_strlit("harvest");
        reveal_strlit("hat");
    }
    assert(prefixes_rise_upto(846)) by {
        reveal_strlit("hat");
        reveal_strlit("have");
    }
    assert(prefixes_rise_upto(847)) by {
        reveal_strlit("have");
        reveal_strlit("hawk");
    }
    assert(prefixes_rise_upto(848)) by {
        reveal_strlit("hawk");
        reveal_strlit("hazard");
    }
    assert(prefixes_rise_upto(849)) by {
        reveal_strlit("hazard");
        reveal_strlit("head");
    }
    assert(prefixes_rise_upto(850)) by {
        reveal_strlit("head");
        reveal_strlit("health");
    }
    assert(prefixes_rise_upto(851)) by {
        reveal_strlit("health");
        reveal_strlit("heart");
    }
    assert(prefixes_rise_upto(852)) by {
        reveal_strlit("heart");
        reveal_strlit("heavy");
    }
    assert(prefixes_rise_upto(853)) by {
        reveal_strlit("heavy");
        reveal_strlit("hedgehog");
    }
    assert(prefixes_rise_upto(854)) by {
        reveal_strlit("hedgehog");
        reveal_strlit("height");
    }
    assert(prefixes_rise_upto(855)) by {
        reveal_strlit("height");
        reveal_strlit("hello");
    }
    assert(prefixes_rise_upto(856)) by {
        reveal_strlit("hello");
        reveal_strlit("helmet");
    }
    assert(prefixes_rise_upto(857)) by {
        reveal_strlit("helmet");
        reveal_strlit("help");
    }
    assert(prefixes_rise_upto(858)) by {
        reveal_strlit("help");
        reveal_strlit("hen");
    }
    assert(prefixes_rise_upto(859)) by {
        reveal_strlit("hen");
        reveal_strlit("hero");
    }
    assert(prefixes_rise_upto(860)) by {
        reveal_strlit("hero");
        reveal_strlit("hidden");
    }
    assert(prefixes_rise_upto(861)) by {
        reveal_strlit("hidden");
        reveal_strlit("high");
    }
    assert(prefixes_rise_upto(862)) by {
        reveal_strlit("high");
        reveal_strlit("hill");
    }
    assert(prefixes_rise_upto(863)) by {
        reveal_strlit("hill");
        reveal_strlit("hint");
    }
    assert(prefixes_rise_upto(864)) by {
        reveal_strlit("hint");
        reveal_strlit("hip");
    }
}

#[verifier::rlimit(30)]
proof fn lemma_prefix_block_27()
    requires
        prefixes_rise_upto(864),
    ensures
        prefixes_rise_upto(896),
{
    assert(prefixes_rise_upto(865)) by {
        reveal_strlit("hip");
        reveal_strlit("hire");
    }
    assert(prefixes_rise_upto(866)) by {
        reveal_strlit("hire");
        reveal_strlit("history");
    }
    assert(prefixes_rise_upto(867)) by {
        reveal_strlit("history");
        reveal_strlit("hobby");
    }
    assert(prefixes_rise_upto(868)) by {
        reveal_strlit("hobby");
        reveal_strlit("hockey");
    }
    assert(prefixes_rise_upto(869)) by {
        reveal_strlit("hockey");
        reveal_strlit("hold");
    }
    assert(prefixes_rise_upto(870)) by {
        reveal_strlit("hold");
        reveal_strlit("hole");
    }
    assert(prefixes_rise_upto(871)) by {
        reveal_strlit("hole");
        reveal_strlit("holiday");
    }
    assert(prefixes_rise_upto(872)) by {
        reveal_strlit("holiday");
        reveal_strlit("hollow");
    }
    assert(prefixes_rise_upto(873)) by {
        reveal_strlit("hollow");
        reveal_strlit("home");
    }
    assert(prefixes_rise_upto(874)) by {
        reveal_strlit("home");
        reveal_strlit("honey");
    }
    assert(prefixes_rise_upto(875)) by {
        reveal_strlit("honey");
        reveal_strlit("hood");
    }
    assert(prefixes_rise_upto(876)) by {
        reveal_strlit("hood");
        reveal_strlit("hope");
    }
    assert(prefixes_rise_upto(877)) by {
        reveal_strlit("hope");
        reveal_strlit("horn");
    }
    assert(prefixes_rise_upto(878)) by {
        reveal_strlit("horn");
        reveal_strlit("horror");
    }
    assert(prefixes_rise_upto(879)) by {
        reveal_strlit("horror");
        reveal_strlit("horse");
    }
    assert(prefixes_rise_upto(880)) by {
        reveal_strlit("horse");
        reveal_strlit("hospital");
    }
    assert(prefixes_rise_upto(881)) by {
        reveal_strlit("hospital");
        reveal_strlit("host");
    }
    assert(prefixes_rise_upto(882)) by {
        reveal_strlit("host");
        reveal_strlit("hotel");
    }
    assert(prefixes_rise_upto(883)) by {
        reveal_strlit("hotel");
        reveal_strlit("hour");
    }
    assert(prefixes_rise_upto(884)) by {
        reveal_strlit("hour");
        reveal_strlit("hover");
    }
    assert(prefixes_rise_upto(885)) by {
        reveal_strlit("hover");
        reveal_strlit("hub");
    }
    assert(prefixes_rise_upto(886)) by {
        reveal_strlit("hub");
        reveal_strlit("huge");
    }
    assert(prefixes_rise_upto(887)) by {
        reveal_strlit("huge");
        reveal_strlit("human");
    }
    assert(prefixes_rise_upto(888)) by {
        reveal_strlit("human");
        reveal_strlit("humble");
    }
    assert(prefixes_rise_upto(889)) by {
        reveal_strlit("humble");
        reveal_strlit("humor");
    }
    assert(prefixes_rise_upto(890)) by {
        reveal_strlit("humor");
        reveal_strlit("hundred");
    }
    assert(prefixes_rise_upto(891)) by {
        reveal_strlit("hundred");
        reveal_strlit("hungry");
    }
    assert(prefixes_rise_upto(892)) by {
        reveal_strlit("hungry");
        reveal_strlit("hunt");
    }
    assert(prefixes_rise_upto(893)) by {
        reveal_strlit("hunt");
        reveal_strlit("hurdle");
    }
    assert(prefixes_rise_upto(894)) by {
        reveal_strlit("hurdle");
        reveal_strlit("hurry");
    }
    assert(prefixes_rise_upto(895)) by {
        reveal_strlit("hurry");
        reveal_strlit("hurt");
    }
    assert(prefixes_rise_upto(896)) by {
        reveal_strlit("hurt");
        reveal_strlit("husband");
    }
}

#[verifier::rlimit(30)]
proof fn lemma_prefix_block_28()
    requires
        prefixes_rise_upto(896),
    ensures
        prefixes_rise_upto(928),
{
    assert(prefixes_rise_upto(897)) by {
        reveal_strlit("husband");
        reveal_strlit("hybrid");
    }
    assert(prefixes_rise_upto(898)) by {
        reveal_strlit("hybrid");
        reveal_strlit("ice");
    }
    assert(prefixes_rise_upto(899)) by {
        reveal_strlit("ice");
        reveal_strlit("icon");
    }
    assert(prefixes_rise_upto(900)) by {
        reveal_strlit("icon");
        reveal_strlit("idea");
    }
    assert(prefixes_rise_upto(901)) by {
        reveal_strlit("idea");
        reveal_strlit("identify");
    }
    assert(prefixes_rise_upto(902)) by {
        reveal_strlit("identify");
        reveal_strlit("idle");
    }
    assert(prefixes_rise_upto(903)) by {
        reveal_strlit("idle");
        reveal_strlit("ignore");
    }
    assert(prefixes_rise_upto(904)) by {
        reveal_strlit("ignore");
        reveal_strlit("ill");
    }
    assert(prefixes_rise_upto(905)) by {
        reveal_strlit("ill");
        reveal_strlit("illegal");
    }
    assert(prefixes_rise_upto(906)) by {
        reveal_strlit("illegal");
        reveal_strlit("illness");
    }
    assert(prefixes_rise_upto(907)) by {
        reveal_strlit("illness");
        reveal_strlit("image");
    }
    assert(prefixes_rise_upto(908)) by {
        reveal_strlit("image");
        reveal_strlit("imitate");
    }
    assert(prefixes_rise_upto(909)) by {
        reveal_strlit("imitate");
        reveal_strlit("immense");
    }
    assert(prefixes_rise_upto(910)) by {
        reveal_strlit("immense");
        reveal_strlit("immune");
    }
    assert(prefixes_rise_upto(911)) by {
        reveal_strlit("immune");
        reveal_strlit("impact");
    }
    assert(prefixes_rise_upto(912)) by {
        reveal_strlit("impact");
        reveal_strlit("impose");
    }
    assert(prefixes_rise_upto(913)) by {
        reveal_strlit("impose");
        reveal_strlit("improve");
    }
    assert(prefixes_rise_upto(914)) by {
        reveal_strlit("improve");
        reveal_strlit("impulse");
    }
    assert(prefixes_rise_upto(915)) by {
        reveal_strlit("impulse");
        reveal_strlit("inch");
    }
    assert(prefixes_rise_upto(916)) by {
        reveal_strlit("inch");
        reveal_strlit("include");
    }
    assert(prefixes_rise_upto(917)) by {
        reveal_strlit("include");
        reveal_strlit("income");
    }
    assert(prefixes_rise_upto(918)) by {
        reveal_strlit("income");
        reveal_strlit("increase");
    }
    assert(prefixes_rise_upto(919)) by {
        reveal_strlit("increase");
        reveal_strlit("index");
    }
    assert(prefixes_rise_upto(920)) by {
        reveal_strlit("index");
        reveal_strlit("indicate");
    }
    assert(prefixes_rise_upto(921)) by {
        reveal_strlit("indicate");
        reveal_strlit("indoor");
    }
    assert(prefixes_rise_upto(922)) by {
        reveal_strlit("indoor");
        reveal_strlit("industry");
    }
    assert(prefixes_rise_upto(923)) by {
        reveal_strlit("industry");
        reveal_strlit("infant");
    }
    assert(prefixes_rise_upto(924)) by {
        reveal_strlit("infant");
        reveal_strlit("inflict");
    }
    assert(prefixes_rise_upto(925)) by {
        reveal_strlit("inflict");
        reveal_strlit("inform");
    }
    assert(prefixes_rise_upto(926)) by {
        reveal_strlit("inform");
        reveal_strlit("inhale");
    }
    assert(prefixes_rise_upto(927)) by {
        reveal_strlit("inhale");
        reveal_strlit("inherit");
    }
    assert(prefixes_rise_upto(928)) by {
        reveal_strlit("inherit");
        reveal_strlit("initial");
    }
}

#[verifier::rlimit(30)]
proof fn lemma_prefix_block_29()
    requires
        prefixes_rise_upto(928),
    ensures
        prefixes_rise_upto(960),
{
    assert(prefixes_rise_upto(929)) by {
        reveal_strlit("initial");
        reveal_strlit("inject");
    }
    assert(prefixes_rise_upto(930)) by {
        reveal_strlit("inject");
        reveal_strlit("injury");
    }
    assert(prefixes_rise_upto(931)) by {
        reveal_strlit("injury");
        reveal_strlit("inmate");
    }
    assert(prefixes_rise_upto(932)) by {
        reveal_strlit("inmate");
        reveal_strlit("inner");
    }
    assert(prefixes_rise_upto(933)) by {
        reveal_strlit("inner");
        reveal_strlit("innocent");
    }
    assert(prefixes_rise_upto(934)) by {
        reveal_strlit("innocent");
        reveal_strlit("input");
    }
    assert(prefixes_rise_upto(935)) by {
        reveal_strlit("input");
        reveal_strlit("inquiry");
    }
    assert(prefixes_rise_upto(936)) by {
        reveal_strlit("inquiry");
        reveal_strlit("insane");
    }
    assert(prefixes_rise_upto(937)) by {
        reveal_strlit("insane");
        reveal_strlit("insect");
    }
    assert(prefixes_rise_upto(938)) by {
        reveal_strlit("insect");
        reveal_strlit("inside");
    }
    assert(prefixes_rise_upto(939)) by {
        reveal_strlit("inside");
        reveal_strlit("inspire");
    }
    assert(prefixes_rise_upto(940)) by {
        reveal_strlit("inspire");
        reveal_strlit("install");
    }
    assert(prefixes_rise_upto(941)) by {
        reveal_strlit("install");
        reveal_strlit("intact");
    }
    assert(prefixes_rise_upto(942)) by {
        reveal_strlit("intact");
        reveal_strlit("interest");
    }
    assert(prefixes_rise_upto(943)) by {
        reveal_strlit("interest");
        reveal_strlit("into");
    }
    assert(prefixes_rise_upto(944)) by {
        reveal_strlit("into");
        reveal_strlit("invest");
    }
    assert(prefixes_rise_upto(945)) by {
        reveal_strlit("invest");
        reveal_strlit("invite");
    }
    assert(prefixes_rise_upto(946)) by {
        reveal_strlit("invite");
        reveal_strlit("involve");
    }
    assert(prefixes_rise_upto(947)) by {
        reveal_strlit("involve");
        reveal_strlit("iron");
    }
    assert(prefixes_rise_upto(948)) by {
        reveal_strlit("iron");
        reveal_strlit("island");
    }
    assert(prefixes_rise_upto(949)) by {
        reveal_strlit("island");
        reveal_strlit("isolate");
    }
    assert(prefixes_rise_upto(950)) by {
        reveal_strlit("isolate");
        reveal_strlit("issue");
    }
    assert(prefixes_rise_upto(951)) by {
        reveal_strlit("issue");
        reveal_strlit("item");
    }
    assert(prefixes_rise_upto(952)) by {
        reveal_strlit("item");
        reveal_strlit("ivory");
    }
    assert(prefixes_rise_upto(953)) by {
        reveal_strlit("ivory");
        reveal_strlit("jacket");
    }
    assert(prefixes_rise_upto(954)) by {
        reveal_strlit("jacket");
        reveal_strlit("jaguar");
    }
    assert(prefixes_rise_upto(955)) by {
        reveal_strlit("jaguar");
        reveal_strlit("jar");
    }
    assert(prefixes_rise_upto(956)) by {
        reveal_strlit("jar");
        reveal_strlit("jazz");
    }
    assert(prefixes_rise_upto(957)) by {
        reveal_strlit("jazz");
        reveal_strlit("jealous");
    }
    assert(prefixes_rise_upto(958)) by {
        reveal_strlit("jealous");
        reveal_strlit("jeans");
    }
    assert(prefixes_rise_upto(959)) by {
        reveal_strlit("jeans");
        reveal_strlit("jelly");
    }
    assert(prefixes_rise_upto(960)) by {
        reveal_strlit("jelly");
        reveal_strlit("jewel");
    }
}

#[verifier::rlimit(30)]
proof fn lemma_prefix_block_30()
    requires
        prefixes_rise_upto(960),
    ensures
        prefixes_rise_upto(992),
{
    assert(prefixes_rise_upto(961)) by {
        reveal_strlit("jewel");
        reveal_strlit("job");
    }
    assert(prefixes_rise_upto(962)) by {
        reveal_strlit("job");
        reveal_strlit("join");
    }
    assert(prefixes_rise_upto(963)) by {
        reveal_strlit("join");
        reveal_strlit("joke");
    }
    assert(prefixes_rise_upto(964)) by {
        reveal_strlit("joke");
        reveal_strlit("journey");
    }
    assert(prefixes_rise_upto(965)) by {
        reveal_strlit("journey");
        reveal_strlit("joy");
    }
    assert(prefixes_rise_upto(966)) by {
        reveal_strlit("joy");
        reveal_strlit("judge");
    }
    assert(prefixes_rise_upto(967)) by {
        reveal_strlit("judge");
        reveal_strlit("juice");
    }
    assert(prefixes_rise_upto(968)) by {
        reveal_strlit("juice");
        reveal_strlit("jump");
    }
    assert(prefixes_rise_upto(969)) by {
        reveal_strlit("jump");
        reveal_strlit("jungle");
    }
    assert(prefixes_rise_upto(970)) by {
        reveal_strlit("jungle");
        reveal_strlit("junior");
    }
    assert(prefixes_rise_upto(971)) by {
        reveal_strlit("junior");
        reveal_strlit("junk");
    }
    assert(prefixes_rise_upto(972)) by {
        reveal_strlit("junk");
        reveal_strlit("just");
    }
    assert(prefixes_rise_upto(973)) by {
        reveal_strlit("just");
        reveal_strlit("kangaroo");
    }
    assert(prefixes_rise_upto(974)) by {
        reveal_strlit("kangaroo");
        reveal_strlit("keen");
    }
    assert(prefixes_rise_upto(975)) by {
        reveal_strlit("keen");
        reveal_strlit("keep");
    }
    assert(prefixes_rise_upto(976)) by {
        reveal_strlit("keep");
        reveal_strlit("ketchup");
    }
    assert(prefixes_rise_upto(977)) by {
        reveal_strlit("ketchup");
        reveal_strlit("key");
    }
    assert(prefixes_rise_upto(978)) by {
        reveal_strlit("key");
        reveal_strlit("kick");
    }
    assert(prefixes_rise_upto(979)) by {
        reveal_strlit("kick");
        reveal_strlit("kid");
    }
    assert(prefixes_rise_upto(980)) by {
        reveal_strlit("kid");
        reveal_strlit("kidney");
    }
    assert(prefixes_rise_upto(981)) by {
        reveal_strlit("kidney");
        reveal_strlit("kind");
    }
    assert(prefixes_rise_upto(982)) by {
        reveal_strlit("kind");
        reveal_strlit("kingdom");
    }
    assert(prefixes_rise_upto(983)) by {
        reveal_strlit("kingdom");
        reveal_strlit("kiss");
    }
    assert(prefixes_rise_upto(984)) by {
        reveal_strlit("kiss");
        reveal_strlit("kit");
    }
    assert(prefixes_rise_upto(985)) by {
        reveal_strlit("kit");
        reveal_strlit("kitchen");
    }
    assert(prefixes_rise_upto(986)) by {
        reveal_strlit("kitchen");
        reveal_strlit("kite");
    }
    assert(prefixes_rise_upto(987)) by {
        reveal_strlit("kite");
        reveal_strlit("kitten");
    }
    assert(prefixes_rise_upto(988)) by {
        reveal_strlit("kitten");
        reveal_strlit("kiwi");
    }
    assert(prefixes_rise_upto(989)) by {
        reveal_strlit("kiwi");
        reveal_strlit("knee");
    }
    assert(prefixes_rise_upto(990)) by {
        reveal_strlit("knee");
        reveal_strlit("knife");
    }
    assert(prefixes_rise_upto(991)) by {
        reveal_strlit("knife");
        reveal_strlit("knock");
    }
    assert(prefixes_rise_upto(992)) by {
        reveal_strlit("knock");
        reveal_strlit("know");
    }
}

#[verifier::rlimit(30)]
proof fn lemma_prefix_block_31()
    requires
        prefixes_rise_upto(992),
    ensures
        prefixes_rise_upto(1024),
{
    assert(prefixes_rise_upto(993)) by {
        reveal_strlit("know");
        reveal_strlit("lab");
    }
    assert(prefixes_rise_upto(994)) by {
        reveal_strlit("lab");
        reveal_strlit("label");
    }
    assert(prefixes_rise_upto(995)) by {
        reveal_strlit("label");
        reveal_strlit("labor");
    }
    assert(prefixes_rise_upto(996)) by {
        reveal_strlit("labor");
        reveal_strlit("ladder");
    }
    assert(prefixes_rise_upto(997)) by {
        reveal_strlit("ladder");
        reveal_strlit("lady");
    }
    assert(prefixes_rise_upto(998)) by {
        reveal_strlit("lady");
        reveal_strlit("lake");
    }
    assert(prefixes_rise_upto(999)) by {
        reveal_strlit("lake");
        reveal_strlit("lamp");
    }
    assert(prefixes_rise_upto(1000)) by {
        reveal_strlit("lamp");
        reveal_strlit("language");
    }
    assert(prefixes_rise_upto(1001)) by {
        reveal_strlit("language");
        reveal_strlit("laptop");
    }
    assert(prefixes_rise_upto(1002)) by {
        reveal_strlit("laptop");
        reveal_strlit("large");
    }
    assert(prefixes_rise_upto(1003)) by {
        reveal_strlit("large");
        reveal_strlit("later");
    }
    assert(prefixes_rise_upto(1004)) by {
        reveal_strlit("later");
        reveal_strlit("latin");
    }
    assert(prefixes_rise_upto(1005)) by {
        reveal_strlit("latin");
        reveal_strlit("laugh");
    }
    assert(prefixes_rise_upto(1006)) by {
        reveal_strlit("laugh");
        reveal_strlit("laundry");
    }
    assert(prefixes_rise_upto(1007)) by {
        reveal_strlit("laundry");
        reveal_strlit("lava");
    }
    assert(prefixes_rise_upto(1008)) by {
        reveal_strlit("lava");
        reveal_strlit("law");
    }
    assert(prefixes_rise_upto(1009)) by {
        reveal_strlit("law");
        reveal_strlit("lawn");
    }
    assert(prefixes_rise_upto(1010)) by {
        reveal_strlit("lawn");
        reveal_strlit("lawsuit");
    }
    assert(prefixes_rise_upto(1011)) by {
        reveal_strlit("lawsuit");
        reveal_strlit("layer");
    }
    assert(prefixes_rise_upto(1012)) by {
        reveal_strlit("layer");
        reveal_strlit("lazy");
    }
    assert(prefixes_rise_upto(1013)) by {
        reveal_strlit("lazy");
        reveal_strlit("leader");
    }
    assert(prefixes_rise_upto(1014)) by {
        reveal_strlit("leader");
        reveal_strlit("leaf");
    }
    assert(prefixes_rise_upto(1015)) by {
        reveal_strlit("leaf");
        reveal_strlit("learn");
    }
    assert(prefixes_rise_upto(1016)) by {
        reveal_strlit("learn");
        reveal_strlit("leave");
    }
    assert(prefixes_rise_upto(1017)) by {
        reveal_strlit("leave");
        reveal_strlit("lecture");
    }
    assert(prefixes_rise_upto(1018)) by {
        reveal_strlit("lecture");
        reveal_strlit("left");
    }
    assert(prefixes_rise_upto(1019)) by {
        reveal_strlit("left");
        reveal_strlit("leg");
    }
    assert(prefixes_rise_upto(1020)) by {
        reveal_strlit("leg");
        reveal_strlit("legal");
    }
    assert(prefixes_rise_upto(1021)) by {
        reveal_strlit("legal");
        reveal_strlit("legend");
    }
    assert(prefixes_rise_upto(1022)) by {
        reveal_strlit("legend");
        reveal_strlit("leisure");
    }
    assert(prefixes_rise_upto(1023)) by {
        reveal_strlit("leisure");
        reveal_strlit("lemon");
    }
    assert(prefixes_rise_upto(1024)) by {
        reveal_strlit("lemon");
        reveal_strlit("lend");
    }
}

#[verifier::rlimit(30)]
proof fn lemma_prefix_block_32()
    requires
        prefixes_rise_upto(1024),
    ensures
        prefixes_rise_upto(1056),
{
    assert(prefixes_rise_upto(1025)) by {
        reveal_strlit("lend");
        reveal_strlit("length");
    }
    assert(prefixes_rise_upto(1026)) by {
        reveal_strlit("length");
        reveal_strlit("lens");
    }
    assert(prefixes_rise_upto(1027)) by {
        reveal_strlit("lens");
        reveal_strlit("leopard");
    }
    assert(prefixes_rise_upto(1028)) by {
        reveal_strlit("leopard");
        reveal_strlit("lesson");
    }
    assert(prefixes_rise_upto(1029)) by {
        reveal_strlit("lesson");
        reveal_strlit("letter");
    }
    assert(prefixes_rise_upto(1030)) by {
        reveal_strlit("letter");
        reveal_strlit("level");
    }
    assert(prefixes_rise_upto(1031)) by {
        reveal_strlit("level");
        reveal_strlit("liar");
    }
    assert(prefixes_rise_upto(1032)) by {
        reveal_strlit("liar");
        reveal_strlit("liberty");
    }
    assert(prefixes_rise_upto(1033)) by {
        reveal_strlit("liberty");
        reveal_strlit("library");
    }
    assert(prefixes_rise_upto(1034)) by {
        reveal_strlit("library");
        reveal_strlit("license");
    }
    assert(prefixes_rise_upto(1035)) by {
        reveal_strlit("license");
        reveal_strlit("life");
    }
    assert(prefixes_rise_upto(1036)) by {
        reveal_strlit("life");
        reveal_strlit("lift");
    }
    assert(prefixes_rise_upto(1037)) by {
        reveal_strlit("lift");
        reveal_strlit("light");
    }
    assert(prefixes_rise_upto(1038)) by {
        reveal_strlit("light");
        reveal_strlit("like");
    }
    assert(prefixes_rise_upto(1039)) by {
        reveal_strlit("like");
        reveal_strlit("limb");
    }
    assert(prefixes_rise_upto(1040)) by {
        reveal_strlit("limb");
        reveal_strlit("limit");
    }
    assert(prefixes_rise_upto(1041)) by {
        reveal_strlit("limit");
        reveal_strlit("link");
    }
    assert(prefixes_rise_upto(1042)) by {
        reveal_strlit("link");
        reveal_strlit("lion");
    }
    assert(prefixes_rise_upto(1043)) by {
        reveal_strlit("lion");
        reveal_strlit("liquid");
    }
    assert(prefixes_rise_upto(1044)) by {
        reveal_strlit("liquid");
        reveal_strlit("list");
    }
    assert(prefixes_rise_upto(1045)) by {
        reveal_strlit("list");
        reveal_strlit("little");
    }
    assert(prefixes_rise_upto(1046)) by {
        reveal_strlit("little");
        reveal_strlit("live");
    }
    assert(prefixes_rise_upto(1047)) by {
        reveal_strlit("live");
        reveal_strlit("lizard");
    }
    assert(prefixes_rise_upto(1048)) by {
        reveal_strlit("lizard");
        reveal_strlit("load");
    }
    assert(prefixes_rise_upto(1049)) by {
        reveal_strlit("load");
        reveal_strlit("loan");
    }
    assert(prefixes_rise_upto(1050)) by {
        reveal_strlit("loan");
        reveal_strlit("lobster");
    }
    assert(prefixes_rise_upto(1051)) by {
        reveal_strlit("lobster");
        reveal_strlit("local");
    }
    assert(prefixes_rise_upto(1052)) by {
        reveal_strlit("local");
        reveal_strlit("lock");
    }
    assert(prefixes_rise_upto(1053)) by {
        reveal_strlit("lock");
        reveal_strlit("logic");
    }
    assert(prefixes_rise_upto(1054)) by {
        reveal_strlit("logic");
        reveal_strlit("lonely");
    }
    assert(prefixes_rise_upto(1055)) by {
        reveal_strlit("lonely");
        reveal_strlit("long");
    }
    assert(prefixes_rise_upto(1056)) by {
        reveal_strlit("long");
        reveal_strlit("loop");
    }
}

#[verifier::rlimit(30)]
proof fn lemma_prefix_block_33()
    requires
        prefixes_rise_upto(1056),
    ensures
        prefixes_rise_upto(1088),
{
    assert(prefixes_rise_upto(1057)) by {
        reveal_strlit("loop");
        reveal_strlit("lottery");
    }
    assert(prefixes_rise_upto(1058)) by {
        reveal_strlit("lottery");
        reveal_strlit("loud");
    }
    assert(prefixes_rise_upto(1059)) by {
        reveal_strlit("loud");
        reveal_strlit("lounge");
    }
    assert(prefixes_rise_upto(1060)) by {
        reveal_strlit("lounge");
        reveal_strlit("love");
    }
    assert(prefixes_rise_upto(1061)) by {
        reveal_strlit("love");
        reveal_strlit("loyal");
    }
    assert(prefixes_rise_upto(1062)) by {
        reveal_strlit("loyal");
        reveal_strlit("lucky");
    }
    assert(prefixes_rise_upto(1063)) by {
        reveal_strlit("lucky");
        reveal_strlit("luggage");
    }
    assert(prefixes_rise_upto(1064)) by {
        reveal_strlit("luggage");
        reveal_strlit("lumber");
    }
    assert(prefixes_rise_upto(1065)) by {
        reveal_strlit("lumber");
        reveal_strlit("lunar");
    }
    assert(prefixes_rise_upto(1066)) by {
        reveal_strlit("lunar");
        reveal_strlit("lunch");
    }
    assert(prefixes_rise_upto(1067)) by {
        reveal_strlit("lunch");
        reveal_strlit("luxury");
    }
    assert(prefixes_rise_upto(1068)) by {
        reveal_strlit("luxury");
        reveal_strlit("lyrics");
    }
    assert(prefixes_rise_upto(1069)) by {
        reveal_strlit("lyrics");
        reveal_strlit("machine");
    }
    assert(prefixes_rise_upto(1070)) by {
        reveal_strlit("machine");
        reveal_strlit("mad");
    }
    assert(prefixes_rise_upto(1071)) by {
        reveal_strlit("mad");
        reveal_strlit("magic");
    }
    assert(prefixes_rise_upto(1072)) by {
        reveal_strlit("magic");
        reveal_strlit("magnet");
    }
    assert(prefixes_rise_upto(1073)) by {
        reveal_strlit("magnet");
        reveal_strlit("maid");
    }
    assert(prefixes_rise_upto(1074)) by {
        reveal_strlit("maid");
        reveal_strlit("mail");
    }
    assert(prefixes_rise_upto(1075)) by {
        reveal_strlit("mail");
        reveal_strlit("main");
    }
    assert(prefixes_rise_upto(1076)) by {
        reveal_strlit("main");
        reveal_strlit("major");
    }
    assert(prefixes_rise_upto(1077)) by {
        reveal_strlit("major");
        reveal_strlit("make");
    }
    assert(prefixes_rise_upto(1078)) by {
        reveal_strlit("make");
        reveal_strlit("mammal");
    }
    assert(prefixes_rise_upto(1079)) by {
        reveal_strlit("mammal");
        reveal_strlit("man");
    }
    assert(prefixes_rise_upto(1080)) by {
        reveal_strlit("man");
        reveal_strlit("manage");
    }
    assert(prefixes_rise_upto(1081)) by {
        reveal_strlit("manage");
        reveal_strlit("mandate");
    }
    assert(prefixes_rise_upto(1082)) by {
        reveal_strlit("mandate");
        reveal_strlit("mango");
    }
    assert(prefixes_rise_upto(1083)) by {
        reveal_strlit("mango");
        reveal_strlit("mansion");
    }
    assert(prefixes_rise_upto(1084)) by {
        reveal_strlit("mansion");
        reveal_strlit("manual");
    }
    assert(prefixes_rise_upto(1085)) by {
        reveal_strlit("manual");
        reveal_strlit("maple");
    }
    assert(prefixes_rise_upto(1086)) by {
        reveal_strlit("maple");
        reveal_strlit("marble");
    }
    assert(prefixes_rise_upto(1087)) by {
        reveal_strlit("marble");
        reveal_strlit("march");
    }
    assert(prefixes_rise_upto(1088)) by {
        reveal_strlit("march");
        reveal_strlit("margin");
    }
}

#[verifier::rlimit(30)]
proof fn lemma_prefix_block_34()
    requires
        prefixes_rise_upto(1088),
    ensures
        prefixes_rise_upto(1120),
{
    assert(prefixes_rise_upto(1089)) by {
        reveal_strlit("margin");
        reveal_strlit("marine");
    }
    assert(prefixes_rise_upto(1090)) by {
        reveal_strlit("marine");
        reveal_strlit("market");
    }
    assert(prefixes_rise_upto(1091)) by {
        reveal_strlit("market");
        reveal_strlit("marriage");
    }
    assert(prefixes_rise_upto(1092)) by {
        reveal_strlit("marriage");
        reveal_strlit("mask");
    }
    assert(prefixes_rise_upto(1093)) by {
        reveal_strlit("mask");
        reveal_strlit("mass");
    }
    assert(prefixes_rise_upto(1094)) by {
        reveal_strlit("mass");
        reveal_strlit("master");
    }
    assert(prefixes_rise_upto(1095)) by {
        reveal_strlit("master");
        reveal_strlit("match");
    }
    assert(prefixes_rise_upto(1096)) by {
        reveal_strlit("match");
        reveal_strlit("material");
    }
    assert(prefixes_rise_upto(1097)) by {
        reveal_strlit("material");
        reveal_strlit("math");
    }
    assert(prefixes_rise_upto(1098)) by {
        reveal_strlit("math");
        reveal_strlit("matrix");
    }
    assert(prefixes_rise_upto(1099)) by {
        reveal_strlit("matrix");
        reveal_strlit("matter");
    }
    assert(prefixes_rise_upto(1100)) by {
        reveal_strlit("matter");
        reveal_strlit("maximum");
    }
    assert(prefixes_rise_upto(1101)) by {
        reveal_strlit("maximum");
        reveal_strlit("maze");
    }
    assert(prefixes_rise_upto(1102)) by {
        reveal_strlit("maze");
        reveal_strlit("meadow");
    }
    assert(prefixes_rise_upto(1103)) by {
        reveal_strlit("meadow");
        reveal_strlit("mean");
    }
    assert(prefixes_rise_upto(1104)) by {
        reveal_strlit("mean");
        reveal_strlit("measure");
    }
    assert(prefixes_rise_upto(1105)) by {
        reveal_strlit("measure");
        reveal_strlit("meat");
    }
    assert(prefixes_rise_upto(1106)) by {
        reveal_strlit("meat");
        reveal_strlit("mechanic");
    }
    assert(prefixes_rise_upto(1107)) by {
        reveal_strlit("mechanic");
        reveal_strlit("medal");
    }
    assert(prefixes_rise_upto(1108)) by {
        reveal_strlit("medal");
        reveal_strlit("media");
    }
    assert(prefixes_rise_upto(1109)) by {
        reveal_strlit("media");
        reveal_strlit("melody");
    }
    assert(prefixes_rise_upto(1110)) by {
        reveal_strlit("melody");
        reveal_strlit("melt");
    }
    assert(prefixes_rise_upto(1111)) by {
        reveal_strlit("melt");
        reveal_strlit("member");
    }
    assert(prefixes_rise_upto(1112)) by {
        reveal_strlit("member");
        reveal_strlit("memory");
    }
    assert(prefixes_rise_upto(1113)) by {
        reveal_strlit("memory");
        reveal_strlit("mention");
    }
    assert(prefixes_rise_upto(1114)) by {
        reveal_strlit("mention");
        reveal_strlit("menu");
    }
    assert(prefixes_rise_upto(1115)) by {
        reveal_strlit("menu");
        reveal_strlit("mercy");
    }
    assert(prefixes_rise_upto(1116)) by {
        reveal_strlit("mercy");
        reveal_strlit("merge");
    }
    assert(prefixes_rise_upto(1117)) by {
        reveal_strlit("merge");
        reveal_strlit("merit");
    }
    assert(prefixes_rise_upto(1118)) by {
        reveal_strlit("merit");
        reveal_strlit("merry");
    }
    assert(prefixes_rise_upto(1119)) by {
        reveal_strlit("merry");
        reveal_strlit("mesh");
    }
    assert(prefixes_rise_upto(1120)) by {
        reveal_strlit("mesh");
        reveal_strlit("message");
    }
}

#[verifier::rlimit(30)]
proof fn lemma_prefix_block_35()
    requires
        prefixes_rise_upto(1120),
    ensures
        prefixes_rise_upto(1152),
{
    assert(prefixes_rise_upto(1121)) by {
        reveal_strlit("message");
        reveal_strlit("metal");
    }
    assert(prefixes_rise_upto(1122)) by {
        reveal_strlit("metal");
        reveal_strlit("method");
    }
    assert(prefixes_rise_upto(1123)) by {
        reveal_strlit("method");
        reveal_strlit("middle");
    }
    assert(prefixes_rise_upto(1124)) by {
        reveal_strlit("middle");
        reveal_strlit("midnight");
    }
    assert(prefixes_rise_upto(1125)) by {
        reveal_strlit("midnight");
        reveal_strlit("milk");
    }
    assert(prefixes_rise_upto(1126)) by {
        reveal_strlit("milk");
        reveal_strlit("million");
    }
    assert(prefixes_rise_upto(1127)) by {
        reveal_strlit("million");
        reveal_strlit("mimic");
    }
    assert(prefixes_rise_upto(1128)) by {
        reveal_strlit("mimic");
        reveal_strlit("mind");
    }
    assert(prefixes_rise_upto(1129)) by {
        reveal_strlit("mind");
        reveal_strlit("minimum");
    }
    assert(prefixes_rise_upto(1130)) by {
        reveal_strlit("minimum");
        reveal_strlit("minor");
    }
    assert(prefixes_rise_upto(1131)) by {
        reveal_strlit("minor");
        reveal_strlit("minute");
    }
    assert(prefixes_rise_upto(1132)) by {
        reveal_strlit("minute");
        reveal_strlit("miracle");
    }
    assert(prefixes_rise_upto(1133)) by {
        reveal_strlit("miracle");
        reveal_strlit("mirror");
    }
    assert(prefixes_rise_upto(1134)) by {
        reveal_strlit("mirror");
        reveal_strlit("misery");
    }
    assert(prefixes_rise_upto(1135)) by {
        reveal_strlit("misery");
        reveal_strlit("miss");
    }
    assert(prefixes_rise_upto(1136)) by {
        reveal_strlit("miss");
        reveal_strlit("mistake");
    }
    assert(prefixes_rise_upto(1137)) by {
        reveal_strlit("mistake");
        reveal_strlit("mix");
    }
    assert(prefixes_rise_upto(1138)) by {
        reveal_strlit("mix");
        reveal_strlit("mixed");
    }
    assert(prefixes_rise_upto(1139)) by {
        reveal_strlit("mixed");
        reveal_strlit("mixture");
    }
    assert(prefixes_rise_upto(1140)) by {
        reveal_strlit("mixture");
        reveal_strlit("mobile");
    }
    assert(prefixes_rise_upto(1141)) by {
        reveal_strlit("mobile");
        reveal_strlit("model");
    }
    assert(prefixes_rise_upto(1142)) by {
        reveal_strlit("model");
        reveal_strlit("modify");
    }
    assert(prefixes_rise_upto(1143)) by {
        reveal_strlit("modify");
        reveal_strlit("mom");
    }
    assert(prefixes_rise_upto(1144)) by {
        reveal_strlit("mom");
        reveal_strlit("moment");
    }
    assert(prefixes_rise_upto(1145)) by {
        reveal_strlit("moment");
        reveal_strlit("monitor");
    }
    assert(prefixes_rise_upto(1146)) by {
        reveal_strlit("monitor");
        reveal_strlit("monkey");
    }
    assert(prefixes_rise_upto(1147)) by {
        reveal_strlit("monkey");
        reveal_strlit("monster");
    }
    assert(prefixes_rise_upto(1148)) by {
        reveal_strlit("monster");
        reveal_strlit("month");
    }
    assert(prefixes_rise_upto(1149)) by {
        reveal_strlit("month");
        reveal_strlit("moon");
    }
    assert(prefixes_rise_upto(1150)) by {
        reveal_strlit("moon");
        reveal_strlit("moral");
    }
    assert(prefixes_rise_upto(1151)) by {
        reveal_strlit("moral");
        reveal_strlit("more");
    }
    assert(prefixes_rise_upto(1152)) by {
        reveal_strlit("more");
        reveal_strlit("morning");
    }
}

#[verifier::rlimit(30)]
proof fn lemma_prefix_block_36()
    requires
        prefixes_rise_upto(1152),
    ensures
        prefixes_rise_upto(1184),
{
    assert(prefixes_rise_upto(1153)) by {
        reveal_strlit("morning");
        reveal_strlit("mosquito");
    }
    assert(prefixes_rise_upto(1154)) by {
        reveal_strlit("mosquito");
        reveal_strlit("mother");
    }
    assert(prefixes_rise_upto(1155)) by {
        reveal_strlit("mother");
        reveal_strlit("motion");
    }
    assert(prefixes_rise_upto(1156)) by {
        reveal_strlit("motion");
        reveal_strlit("motor");
    }
    assert(prefixes_rise_upto(1157)) by {
        reveal_strlit("motor");
        reveal_strlit("mountain");
    }
    assert(prefixes_rise_upto(1158)) by {
        reveal_strlit("mountain");
        reveal_strlit("mouse");
    }
    assert(prefixes_rise_upto(1159)) by {
        reveal_strlit("mouse");
        reveal_strlit("move");
    }
    assert(prefixes_rise_upto(1160)) by {
        reveal_strlit("move");
        reveal_strlit("movie");
    }
    assert(prefixes_rise_upto(1161)) by {
        reveal_strlit("movie");
        reveal_strlit("much");
    }
    assert(prefixes_rise_upto(1162)) by {
        reveal_strlit("much");
        reveal_strlit("muffin");
    }
    assert(prefixes_rise_upto(1163)) by {
        reveal_strlit("muffin");
        reveal_strlit("mule");
    }
    assert(prefixes_rise_upto(1164)) by {
        reveal_strlit("mule");
        reveal_strlit("multiply");
    }
    assert(prefixes_rise_upto(1165)) by {
        reveal_strlit("multiply");
        reveal_strlit("muscle");
    }
    assert(prefixes_rise_upto(1166)) by {
        reveal_strlit("muscle");
        reveal_strlit("museum");
    }
    assert(prefixes_rise_upto(1167)) by {
        reveal_strlit("museum");
        reveal_strlit("mushroom");
    }
    assert(prefixes_rise_upto(1168)) by {
        reveal_strlit("mushroom");
        reveal_strlit("music");
    }
    assert(prefixes_rise_upto(1169)) by {
        reveal_strlit("music");
        reveal_strlit("must");
    }
    assert(prefixes_rise_upto(1170)) by {
        reveal_strlit("must");
        reveal_strlit("mutual");
    }
    assert(prefixes_rise_upto(1171)) by {
        reveal_strlit("mutual");
        reveal_strlit("myself");
    }
    assert(prefixes_rise_upto(1172)) by {
        reveal_strlit("myself");
        reveal_strlit("mystery");
    }
    assert(prefixes_rise_upto(1173)) by {
        reveal_strlit("mystery");
        reveal_strlit("myth");
    }
    assert(prefixes_rise_upto(1174)) by {
        reveal_strlit("myth");
        reveal_strlit("naive");
    }
    assert(prefixes_rise_upto(1175)) by {
        reveal_strlit("naive");
        reveal_strlit("name");
    }
    assert(prefixes_rise_upto(1176)) by {
        reveal_strlit("name");
        reveal_strlit("napkin");
    }
    assert(prefixes_rise_upto(1177)) by {
        reveal_strlit("napkin");
        reveal_strlit("narrow");
    }
    assert(prefixes_rise_upto(1178)) by {
        reveal_strlit("narrow");
        reveal_strlit("nasty");
    }
    assert(prefixes_rise_upto(1179)) by {
        reveal_strlit("nasty");
        reveal_strlit("nation");
    }
    assert(prefixes_rise_upto(1180)) by {
        reveal_strlit("nation");
        reveal_strlit("nature");
    }
    assert(prefixes_rise_upto(1181)) by {
        reveal_strlit("nature");
        reveal_strlit("near");
    }
    assert(prefixes_rise_upto(1182)) by {
        reveal_strlit("near");
        reveal_strlit("neck");
    }
    assert(prefixes_rise_upto(1183)) by {
        reveal_strlit("neck");
        reveal_strlit("need");
    }
    assert(prefixes_rise_upto(1184)) by {
        reveal_strlit("need");
        reveal_strlit("negative");
    }
}

#[verifier::rlimit(30)]
proof fn lemma_prefix_block_37()
    requires
        prefixes_rise_upto(1184),
    ensures
        prefixes_rise_upto(1216),
{
    assert(prefixes_rise_upto(1185)) by {
        reveal_strlit("negative");
        reveal_strlit("neglect");
    }
    assert(prefixes_rise_upto(1186)) by {
        reveal_strlit("neglect");
        reveal_strlit("neither");
    }
    assert(prefixes_rise_upto(1187)) by {
        reveal_strlit("neither");
        reveal_strlit("nephew");
    }
    assert(prefixes_rise_upto(1188)) by {
        reveal_strlit("nephew");
        reveal_strlit("nerve");
    }
    assert(prefixes_rise_upto(1189)) by {
        reveal_strlit("nerve");
        reveal_strlit("nest");
    }
    assert(prefixes_rise_upto(1190)) by {
        reveal_strlit("nest");
        reveal_strlit("net");
    }
    assert(prefixes_rise_upto(1191)) by {
        reveal_strlit("net");
        reveal_strlit("network");
    }
    assert(prefixes_rise_upto(1192)) by {
        reveal_strlit("network");
        reveal_strlit("neutral");
    }
    assert(prefixes_rise_upto(1193)) by {
        reveal_strlit("neutral");
        reveal_strlit("never");
    }
    assert(prefixes_rise_upto(1194)) by {
        reveal_strlit("never");
        reveal_strlit("news");
    }
    assert(prefixes_rise_upto(1195)) by {
        reveal_strlit("news");
        reveal_strlit("next");
    }
    assert(prefixes_rise_upto(1196)) by {
        reveal_strlit("next");
        reveal_strlit("nice");
    }
    assert(prefixes_rise_upto(1197)) by {
        reveal_strlit("nice");
        reveal_strlit("night");
    }
    assert(prefixes_rise_upto(1198)) by {
        reveal_strlit("night");
        reveal_strlit("noble");
    }
    assert(prefixes_rise_upto(1199)) by {
        reveal_strlit("noble");
        reveal_strlit("noise");
    }
    assert(prefixes_rise_upto(1200)) by {
        reveal_strlit("noise");
        reveal_strlit("nominee");
    }
    assert(prefixes_rise_upto(1201)) by {
        reveal_strlit("nominee");
        reveal_strlit("noodle");
    }
    assert(prefixes_rise_upto(1202)) by {
        reveal_strlit("noodle");
        reveal_strlit("normal");
    }
    assert(prefixes_rise_upto(1203)) by {
        reveal_strlit("normal");
        reveal_strlit("north");
    }
    assert(prefixes_rise_upto(1204)) by {
        reveal_strlit("north");
        reveal_strlit("nose");
    }
    assert(prefixes_rise_upto(1205)) by {
        reveal_strlit("nose");
        reveal_strlit("notable");
    }
    assert(prefixes_rise_upto(1206)) by {
        reveal_strlit("notable");
        reveal_strlit("note");
    }
    assert(prefixes_rise_upto(1207)) by {
        reveal_strlit("note");
        reveal_strlit("nothing");
    }
    assert(prefixes_rise_upto(1208)) by {
        reveal_strlit("nothing");
        reveal_strlit("notice");
    }
    assert(prefixes_rise_upto(1209)) by {
        reveal_strlit("notice");
        reveal_strlit("novel");
    }
    assert(prefixes_rise_upto(1210)) by {
        reveal_strlit("novel");
        reveal_strlit("now");
    }
    assert(prefixes_rise_upto(1211)) by {
        reveal_strlit("now");
        reveal_strlit("nuclear");
    }
    assert(prefixes_rise_upto(1212)) by {
        reveal_strlit("nuclear");
        reveal_strlit("number");
    }
    assert(prefixes_rise_upto(1213)) by {
        reveal_strlit("number");
        reveal_strlit("nurse");
    }
    assert(prefixes_rise_upto(1214)) by {
        reveal_strlit("nurse");
        reveal_strlit("nut");
    }
    assert(prefixes_rise_upto(1215)) by {
        reveal_strlit("nut");
        reveal_strlit("oak");
    }
    assert(prefixes_rise_upto(1216)) by {
        reveal_strlit("oak");
        reveal_strlit("obey");
    }
}

#[verifier::rlimit(30)]
proof fn lemma_prefix_block_38()
    requires
        prefixes_rise_upto(1216),
    ensures
        prefixes_rise_upto(1248),
{
    assert(prefixes_rise_upto(1217)) by {
        reveal_strlit("obey");
        reveal_strlit("object");
    }
    assert(prefixes_rise_upto(1218)) by {
        reveal_strlit("object");
        reveal_strlit("oblige");
    }
    assert(prefixes_rise_upto(1219)) by {
        reveal_strlit("oblige");
        reveal_strlit("obscure");
    }
    assert(prefixes_rise_upto(1220)) by {
        reveal_strlit("obscure");
        reveal_strlit("observe");
    }
    assert(prefixes_rise_upto(1221)) by {
        reveal_strlit("observe");
        reveal_strlit("obtain");
    }
    assert(prefixes_rise_upto(1222)) by {
        reveal_strlit("obtain");
        reveal_strlit("obvious");
    }
    assert(prefixes_rise_upto(1223)) by {
        reveal_strlit("obvious");
        reveal_strlit("occur");
    }
    assert(prefixes_rise_upto(1224)) by {
        reveal_strlit("occur");
        reveal_strlit("ocean");
    }
    assert(prefixes_rise_upto(1225)) by {
        reveal_strlit("ocean");
        reveal_strlit("october");
    }
    assert(prefixes_rise_upto(1226)) by {
        reveal_strlit("october");
        reveal_strlit("odor");
    }
    assert(prefixes_rise_upto(1227)) by {
        reveal_strlit("odor");
        reveal_strlit("off");
    }
    assert(prefixes_rise_upto(1228)) by {
        reveal_strlit("off");
        reveal_strlit("offer");
    }
    assert(prefixes_rise_upto(1229)) by {
        reveal_strlit("offer");
        reveal_strlit("office");
    }
    assert(prefixes_rise_upto(1230)) by {
        reveal_strlit("office");
        reveal_strlit("often");
    }
    assert(prefixes_rise_upto(1231)) by {
        reveal_strlit("often");
        reveal_strlit("oil");
    }
    assert(prefixes_rise_upto(1232)) by {
        reveal_strlit("oil");
        reveal_strlit("okay");
    }
    assert(prefixes_rise_upto(1233)) by {
        reveal_strlit("okay");
        reveal_strlit("old");
    }
    assert(prefixes_rise_upto(1234)) by {
        reveal_strlit("old");
        reveal_strlit("olive");
    }
    assert(prefixes_rise_upto(1235)) by {
        reveal_strlit("olive");
        reveal_strlit("olympic");
    }
    assert(prefixes_rise_upto(1236)) by {
        reveal_strlit("olympic");
        reveal_strlit("omit");
    }
    assert(prefixes_rise_upto(1237)) by {
        reveal_strlit("omit");
        reveal_strlit("once");
    }
    assert(prefixes_rise_upto(1238)) by {
        reveal_strlit("once");
        reveal_strlit("one");
    }
    assert(prefixes_rise_upto(1239)) by {
        reveal_strlit("one");
        reveal_strlit("onion");
    }
    assert(prefixes_rise_upto(1240)) by {
        reveal_strlit("onion");
        reveal_strlit("online");
    }
    assert(prefixes_rise_upto(1241)) by {
        reveal_strlit("online");
        reveal_strlit("only");
    }
    assert(prefixes_rise_upto(1242)) by {
        reveal_strlit("only");
        reveal_strlit("open");
    }
    assert(prefixes_rise_upto(1243)) by {
        reveal_strlit("open");
        reveal_strlit("opera");
    }
    assert(prefixes_rise_upto(1244)) by {
        reveal_strlit("opera");
        reveal_strlit("opinion");
    }
    assert(prefixes_rise_upto(1245)) by {
        reveal_strlit("opinion");
        reveal_strlit("oppose");
    }
    assert(prefixes_rise_upto(1246)) by {
        reveal_strlit("oppose");
        reveal_strlit("option");
    }
    assert(prefixes_rise_upto(1247)) by {
        reveal_strlit("option");
        reveal_strlit("orange");
    }
    assert(prefixes_rise_upto(1248)) by {
        reveal_strlit("orange");
        reveal_strlit("orbit");
    }
}

#[verifier::rlimit(30)]
proof fn lemma_prefix_block_39()
    requires
        prefixes_rise_upto(1248),
    ensures
        prefixes_rise_upto(1280),
{
    assert(prefixes_rise_upto(1249)) by {
        reveal_strlit("orbit");
        reveal_strlit("orchard");
    }
    assert(prefixes_rise_upto(1250)) by {
        reveal_strlit("orchard");
        reveal_strlit("order");
    }
    assert(prefixes_rise_upto(1251)) by {
        reveal_strlit("order");
        reveal_strlit("ordinary");
    }
    assert(prefixes_rise_upto(1252)) by {
        reveal_strlit("ordinary");
        reveal_strlit("organ");
    }
    assert(prefixes_rise_upto(1253)) by {
        reveal_strlit("organ");
        reveal_strlit("orient");
    }
    assert(prefixes_rise_upto(1254)) by {
        reveal_strlit("orient");
        reveal_strlit("original");
    }
    assert(prefixes_rise_upto(1255)) by {
        reveal_strlit("original");
        reveal_strlit("orphan");
    }
    assert(prefixes_rise_upto(1256)) by {
        reveal_strlit("orphan");
        reveal_strlit("ostrich");
    }
    assert(prefixes_rise_upto(1257)) by {
        reveal_strlit("ostrich");
        reveal_strlit("other");
    }
    assert(prefixes_rise_upto(1258)) by {
        reveal_strlit("other");
        reveal_strlit("outdoor");
    }
    assert(prefixes_rise_upto(1259)) by {
        reveal_strlit("outdoor");
        reveal_strlit("outer");
    }
    assert(prefixes_rise_upto(1260)) by {
        reveal_strlit("outer");
        reveal_strlit("output");
    }
    assert(prefixes_rise_upto(1261)) by {
        reveal_strlit("output");
        reveal_strlit("outside");
    }
    assert(prefixes_rise_upto(1262)) by {
        reveal_strlit("outside");
        reveal_strlit("oval");
    }
    assert(prefixes_rise_upto(1263)) by {
        reveal_strlit("oval");
        reveal_strlit("oven");
    }
    assert(prefixes_rise_upto(1264)) by {
        reveal_strlit("oven");
        reveal_strlit("over");
    }
    assert(prefixes_rise_upto(1265)) by {
        reveal_strlit("over");
        reveal_strlit("own");
    }
    assert(prefixes_rise_upto(1266)) by {
        reveal_strlit("own");
        reveal_strlit("owner");
    }
    assert(prefixes_rise_upto(1267)) by {
        reveal_strlit("owner");
        reveal_strlit("oxygen");
    }
    assert(prefixes_rise_upto(1268)) by {
        reveal_strlit("oxygen");
        reveal_strlit("oyster");
    }
    assert(prefixes_rise_upto(1269)) by {
        reveal_strlit("oyster");
        reveal_strlit("ozone");
    }
    assert(prefixes_rise_upto(1270)) by {
        reveal_strlit("ozone");
        reveal_strlit("pact");
    }
    assert(prefixes_rise_upto(1271)) by {
        reveal_strlit("pact");
        reveal_strlit("paddle");
    }
    assert(prefixes_rise_upto(1272)) by {
        reveal_strlit("paddle");
        reveal_strlit("page");
    }
    assert(prefixes_rise_upto(1273)) by {
        reveal_strlit("page");
        reveal_strlit("pair");
    }
    assert(prefixes_rise_upto(1274)) by {
        reveal_strlit("pair");
        reveal_strlit("palace");
    }
    assert(prefixes_rise_upto(1275)) by {
        reveal_strlit("palace");
        reveal_strlit("palm");
    }
    assert(prefixes_rise_upto(1276)) by {
        reveal_strlit("palm");
        reveal_strlit("panda");
    }
    assert(prefixes_rise_upto(1277)) by {
        reveal_strlit("panda");
        reveal_strlit("panel");
    }
    assert(prefixes_rise_upto(1278)) by {
        reveal_strlit("panel");
        reveal_strlit("panic");
    }
    assert(prefixes_rise_upto(1279)) by {
        reveal_strlit("panic");
        reveal_strlit("panther");
    }
    assert(prefixes_rise_upto(1280)) by {
        reveal_strlit("panther");
        reveal_strlit("paper");
    }
}

#[verifier::rlimit(30)]
proof fn lemma_prefix_block_40()
    requires
        prefixes_rise_upto(1280),
    ensures
        prefixes_rise_upto(1312),
{
    assert(prefixes_rise_upto(1281)) by {
        reveal_strlit("paper");
        reveal_strlit("parade");
    }
    assert(prefixes_rise_upto(1282)) by {
        reveal_strlit("parade");
        reveal_strlit("parent");
    }
    assert(prefixes_rise_upto(1283)) by {
        reveal_strlit("parent");
        reveal_strlit("park");
    }
    assert(prefixes_rise_upto(1284)) by {
        reveal_strlit("park");
        reveal_strlit("parrot");
    }
    assert(prefixes_rise_upto(1285)) by {
        reveal_strlit("parrot");
        reveal_strlit("party");
    }
    assert(prefixes_rise_upto(1286)) by {
        reveal_strlit("party");
        reveal_strlit("pass");
    }
    assert(prefixes_rise_upto(1287)) by {
        reveal_strlit("pass");
        reveal_strlit("patch");
    }
    assert(prefixes_rise_upto(1288)) by {
        reveal_strlit("patch");
        reveal_strlit("path");
    }
    assert(prefixes_rise_upto(1289)) by {
        reveal_strlit("path");
        reveal_strlit("patient");
    }
    assert(prefixes_rise_upto(1290)) by {
        reveal_strlit("patient");
        reveal_strlit("patrol");
    }
    assert(prefixes_rise_upto(1291)) by {
        reveal_strlit("patrol");
        reveal_strlit("pattern");
    }
    assert(prefixes_rise_upto(1292)) by {
        reveal_strlit("pattern");
        reveal_strlit("pause");
    }
    assert(prefixes_rise_upto(1293)) by {
        reveal_strlit("pause");
        reveal_strlit("pave");
    }
    assert(prefixes_rise_upto(1294)) by {
        reveal_strlit("pave");
        reveal_strlit("payment");
    }
    assert(prefixes_rise_upto(1295)) by {
        reveal_strlit("payment");
        reveal_strlit("peace");
    }
    assert(prefixes_rise_upto(1296)) by {
        reveal_strlit("peace");
        reveal_strlit("peanut");
    }
    assert(prefixes_rise_upto(1297)) by {
        reveal_strlit("peanut");
        reveal_strlit("pear");
    }
    assert(prefixes_rise_upto(1298)) by {
        reveal_strlit("pear");
        reveal_strlit("peasant");
    }
    assert(prefixes_rise_upto(1299)) by {
        reveal_strlit("peasant");
        reveal_strlit("pelican");
    }
    assert(prefixes_rise_upto(1300)) by {
        reveal_strlit("pelican");
        reveal_strlit("pen");
    }
    assert(prefixes_rise_upto(1301)) by {
        reveal_strlit("pen");
        reveal_strlit("penalty");
    }
    assert(prefixes_rise_upto(1302)) by {
        reveal_strlit("penalty");
        reveal_strlit("pencil");
    }
    assert(prefixes_rise_upto(1303)) by {
        reveal_strlit("pencil");
        reveal_strlit("people");
    }
    assert(prefixes_rise_upto(1304)) by {
        reveal_strlit("people");
        reveal_strlit("pepper");
    }
    assert(prefixes_rise_upto(1305)) by {
        reveal_strlit("pepper");
        reveal_strlit("perfect");
    }
    assert(prefixes_rise_upto(1306)) by {
        reveal_strlit("perfect");
        reveal_strlit("permit");
    }
    assert(prefixes_rise_upto(1307)) by {
        reveal_strlit("permit");
        reveal_strlit("person");
    }
    assert(prefixes_rise_upto(1308)) by {
        reveal_strlit("person");
        reveal_strlit("pet");
    }
    assert(prefixes_rise_upto(1309)) by {
        reveal_strlit("pet");
        reveal_strlit("phone");
    }
    assert(prefixes_rise_upto(1310)) by {
        reveal_strlit("phone");
        reveal_strlit("photo");
    }
    assert(prefixes_rise_upto(1311)) by {
        reveal_strlit("photo");
        reveal_strlit("phrase");
    }
    assert(prefixes_rise_upto(1312)) by {
        reveal_strlit("phrase");
        reveal_strlit("physical");
    }
}

#[verifier::rlimit(30)]
proof fn lemma_prefix_block_41()
    requires
        prefixes_rise_upto(1312),
    ensures
        prefixes_rise_upto(1344),
{
    assert(prefixes_rise_upto(1313)) by {
        reveal_strlit("physical");
        reveal_strlit("piano");
    }
    assert(prefixes_rise_upto(1314)) by {
        reveal_strlit("piano");
        reveal_strlit("picnic");
    }
    assert(prefixes_rise_upto(1315)) by {
        reveal_strlit("picnic");
        reveal_strlit("picture");
    }
    assert(prefixes_rise_upto(1316)) by {
        reveal_strlit("picture");
        reveal_strlit("piece");
    }
    assert(prefixes_rise_upto(1317)) by {
        reveal_strlit("piece");
        reveal_strlit("pig");
    }
    assert(prefixes_rise_upto(1318)) by {
        reveal_strlit("pig");
        reveal_strlit("pigeon");
    }
    assert(prefixes_rise_upto(1319)) by {
        reveal_strlit("pigeon");
        reveal_strlit("pill");
    }
    assert(prefixes_rise_upto(1320)) by {
        reveal_strlit("pill");
        reveal_strlit("pilot");
    }
    assert(prefixes_rise_upto(1321)) by {
        reveal_strlit("pilot");
        reveal_strlit("pink");
    }
    assert(prefixes_rise_upto(1322)) by {
        reveal_strlit("pink");
        reveal_strlit("pioneer");
    }
    assert(prefixes_rise_upto(1323)) by {
        reveal_strlit("pioneer");
        reveal_strlit("pipe");
    }
    assert(prefixes_rise_upto(1324)) by {
        reveal_strlit("pipe");
        reveal_strlit("pistol");
    }
    assert(prefixes_rise_upto(1325)) by {
        reveal_strlit("pistol");
        reveal_strlit("pitch");
    }
    assert(prefixes_rise_upto(1326)) by {
        reveal_strlit("pitch");
        reveal_strlit("pizza");
    }
    assert(prefixes_rise_upto(1327)) by {
        reveal_strlit("pizza");
        reveal_strlit("place");
    }
    assert(prefixes_rise_upto(1328)) by {
        reveal_strlit("place");
        reveal_strlit("planet");
    }
    assert(prefixes_rise_upto(1329)) by {
        reveal_strlit("planet");
        reveal_strlit("plastic");
    }
    assert(prefixes_rise_upto(1330)) by {
        reveal_strlit("plastic");
        reveal_strlit("plate");
    }
    assert(prefixes_rise_upto(1331)) by {
        reveal_strlit("plate");
        reveal_strlit("play");
    }
    assert(prefixes_rise_upto(1332)) by {
        reveal_strlit("play");
        reveal_strlit("please");
    }
    assert(prefixes_rise_upto(1333)) by {
        reveal_strlit("please");
        reveal_strlit("pledge");
    }
    assert(prefixes_rise_upto(1334)) by {
        reveal_strlit("pledge");
        reveal_strlit("pluck");
    }
    assert(prefixes_rise_upto(1335)) by {
        reveal_strlit("pluck");
        reveal_strlit("plug");
    }
    assert(prefixes_rise_upto(1336)) by {
        reveal_strlit("plug");
        reveal_strlit("plunge");
    }
    assert(prefixes_rise_upto(1337)) by {
        reveal_strlit("plunge");
        reveal_strlit("poem");
    }
    assert(prefixes_rise_upto(1338)) by {
        reveal_strlit("poem");
        reveal_strlit("poet");
    }
    assert(prefixes_rise_upto(1339)) by {
        reveal_strlit("poet");
        reveal_strlit("point");
    }
    assert(prefixes_rise_upto(1340)) by {
        reveal_strlit("point");
        reveal_strlit("polar");
    }
    assert(prefixes_rise_upto(1341)) by {
        reveal_strlit("polar");
        reveal_strlit("pole");
    }
    assert(prefixes_rise_upto(1342)) by {
        reveal_strlit("pole");
        reveal_strlit("police");
    }
    assert(prefixes_rise_upto(1343)) by {
        reveal_strlit("police");
        reveal_strlit("pond");
    }
    assert(prefixes_rise_upto(1344)) by {
        reveal_strlit("pond");
        reveal_strlit("pony");
    }
}

#[verifier::rlimit(30)]
proof fn lemma_prefix_block_42()
    requires
        prefixes_rise_upto(1344),
    ensures
        prefixes_rise_upto(1376),
{
    assert(prefixes_rise_upto(1345)) by {
        reveal_strlit("pony");
        reveal_strlit("pool");
    }
    assert(prefixes_rise_upto(1346)) by {
        reveal_strlit("pool");
        reveal_strlit("popular");
    }
    assert(prefixes_rise_upto(1347)) by {
        reveal_strlit("popular");
        reveal_strlit("portion");
    }
    assert(prefixes_rise_upto(1348)) by {
        reveal_strlit("portion");
        reveal_strlit("position");
    }
    assert(prefixes_rise_upto(1349)) by {
        reveal_strlit("position");
        reveal_strlit("possible");
    }
    assert(prefixes_rise_upto(1350)) by {
        reveal_strlit("possible");
        reveal_strlit("post");
    }
    assert(prefixes_rise_upto(1351)) by {
        reveal_strlit("post");
        reveal_strlit("potato");
    }
    assert(prefixes_rise_upto(1352)) by {
        reveal_strlit("potato");
        reveal_strlit("pottery");
    }
    assert(prefixes_rise_upto(1353)) by {
        reveal_strlit("pottery");
        reveal_strlit("poverty");
    }
    assert(prefixes_rise_upto(1354)) by {
        reveal_strlit("poverty");
        reveal_strlit("powder");
    }
    assert(prefixes_rise_upto(1355)) by {
        reveal_strlit("powder");
        reveal_strlit("power");
    }
    assert(prefixes_rise_upto(1356)) by {
        reveal_strlit("power");
        reveal_strlit("practice");
    }
    assert(prefixes_rise_upto(1357)) by {
        reveal_strlit("practice");
        reveal_strlit("praise");
    }
    assert(prefixes_rise_upto(1358)) by {
        reveal_strlit("praise");
        reveal_strlit("predict");
    }
    assert(prefixes_rise_upto(1359)) by {
        reveal_strlit("predict");
        reveal_strlit("prefer");
    }
    assert(prefixes_rise_upto(1360)) by {
        reveal_strlit("prefer");
        reveal_strlit("prepare");
    }
    assert(prefixes_rise_upto(1361)) by {
        reveal_strlit("prepare");
        reveal_strlit("present");
    }
    assert(prefixes_rise_upto(1362)) by {
        reveal_strlit("present");
        reveal_strlit("pretty");
    }
    assert(prefixes_rise_upto(1363)) by {
        reveal_strlit("pretty");
        reveal_strlit("prevent");
    }
    assert(prefixes_rise_upto(1364)) by {
        reveal_strlit("prevent");
        reveal_strlit("price");
    }
    assert(prefixes_rise_upto(1365)) by {
        reveal_strlit("price");
        reveal_strlit("pride");
    }
    assert(prefixes_rise_upto(1366)) by {
        reveal_strlit("pride");
        reveal_strlit("primary");
    }
    assert(prefixes_rise_upto(1367)) by {
        reveal_strlit("primary");
        reveal_strlit("print");
    }
    assert(prefixes_rise_upto(1368)) by {
        reveal_strlit("print");
        reveal_strlit("priority");
    }
    assert(prefixes_rise_upto(1369)) by {
        reveal_strlit("priority");
        reveal_strlit("prison");
    }
    assert(prefixes_rise_upto(1370)) by {
        reveal_strlit("prison");
        reveal_strlit("private");
    }
    assert(prefixes_rise_upto(1371)) by {
        reveal_strlit("private");
        reveal_strlit("prize");
    }
    assert(prefixes_rise_upto(1372)) by {
        reveal_strlit("prize");
        reveal_strlit("problem");
    }
    assert(prefixes_rise_upto(1373)) by {
        reveal_strlit("problem");
        reveal_strlit("process");
    }
    assert(prefixes_rise_upto(1374)) by {
        reveal_strlit("process");
        reveal_strlit("produce");
    }
    assert(prefixes_rise_upto(1375)) by {
        reveal_strlit("produce");
        reveal_strlit("profit");
    }
    assert(prefixes_rise_upto(1376)) by {
        reveal_strlit("profit");
        reveal_strlit("program");
    }
}

#[verifier::rlimit(30)]
proof fn lemma_prefix_block_43()
    requires
        prefixes_rise_upto(1376),
    ensures
        prefixes_rise_upto(1408),
{
    assert(prefixes_rise_upto(1377)) by {
        reveal_strlit("program");
        reveal_strlit("project");
    }
    assert(prefixes_rise_upto(1378)) by {
        reveal_strlit("project");
        reveal_strlit("promote");
    }
    assert(prefixes_rise_upto(1379)) by {
        reveal_strlit("promote");
        reveal_strlit("proof");
    }
    assert(prefixes_rise_upto(1380)) by {
        reveal_strlit("proof");
        reveal_strlit("property");
    }
    assert(prefixes_rise_upto(1381)) by {
        reveal_strlit("property");
        reveal_strlit("prosper");
    }
    assert(prefixes_rise_upto(1382)) by {
        reveal_strlit("prosper");
        reveal_strlit("protect");
    }
    assert(prefixes_rise_upto(1383)) by {
        reveal_strlit("protect");
        reveal_strlit("proud");
    }
    assert(prefixes_rise_upto(1384)) by {
        reveal_strlit("proud");
        reveal_strlit("provide");
    }
    assert(prefixes_rise_upto(1385)) by {
        reveal_strlit("provide");
        reveal_strlit("public");
    }
    assert(prefixes_rise_upto(1386)) by {
        reveal_strlit("public");
        reveal_strlit("pudding");
    }
    assert(prefixes_rise_upto(1387)) by {
        reveal_strlit("pudding");
        reveal_strlit("pull");
    }
    assert(prefixes_rise_upto(1388)) by {
        reveal_strlit("pull");
        reveal_strlit("pulp");
    }
    assert(prefixes_rise_upto(1389)) by {
        reveal_strlit("pulp");
        reveal_strlit("pulse");
    }
    assert(prefixes_rise_upto(1390)) by {
        reveal_strlit("pulse");
        reveal_strlit("pumpkin");
    }
    assert(prefixes_rise_upto(1391)) by {
        reveal_strlit("pumpkin");
        reveal_strlit("punch");
    }
    assert(prefixes_rise_upto(1392)) by {
        reveal_strlit("punch");
        reveal_strlit("pupil");
    }
    assert(prefixes_rise_upto(1393)) by {
        reveal_strlit("pupil");
        reveal_strlit("puppy");
    }
    assert(prefixes_rise_upto(1394)) by {
        reveal_strlit("puppy");
        reveal_strlit("purchase");
    }
    assert(prefixes_rise_upto(1395)) by {
        reveal_strlit("purchase");
        reveal_strlit("purity");
    }
    assert(prefixes_rise_upto(1396)) by {
        reveal_strlit("purity");
        reveal_strlit("purpose");
    }
    assert(prefixes_rise_upto(1397)) by {
        reveal_strlit("purpose");
        reveal_strlit("purse");
    }
    assert(prefixes_rise_upto(1398)) by {
        reveal_strlit("purse");
        reveal_strlit("push");
    }
    assert(prefixes_rise_upto(1399)) by {
        reveal_strlit("push");
        reveal_strlit("put");
    }
    assert(prefixes_rise_upto(1400)) by {
        reveal_strlit("put");
        reveal_strlit("puzzle");
    }
    assert(prefixes_rise_upto(1401)) by {
        reveal_strlit("puzzle");
        reveal_strlit("pyramid");
    }
    assert(prefixes_rise_upto(1402)) by {
        reveal_strlit("pyramid");
        reveal_strlit("quality");
    }
    assert(prefixes_rise_upto(1403)) by {
        reveal_strlit("quality");
        reveal_strlit("quantum");
    }
    assert(prefixes_rise_upto(1404)) by {
        reveal_strlit("quantum");
        reveal_strlit("quarter");
    }
    assert(prefixes_rise_upto(1405)) by {
        reveal_strlit("quarter");
        reveal_strlit("question");
    }
    assert(prefixes_rise_upto(1406)) by {
        reveal_strlit("question");
        reveal_strlit("quick");
    }
    assert(prefixes_rise_upto(1407)) by {
        reveal_strlit("quick");
        reveal_strlit("quit");
    }
    assert(prefixes_rise_upto(1408)) by {
        reveal_strlit("quit");
        reveal_strlit("quiz");
    }
}

#[verifier::rlimit(30)]
proof fn lemma_prefix_block_44()
    requires
        prefixes_rise_upto(1408),
    ensures
        prefixes_rise_upto(1440),
{
    assert(prefixes_rise_upto(1409)) by {
        reveal_strlit("quiz");
        reveal_strlit("quote");
    }
    assert(prefixes_rise_upto(1410)) by {
        reveal_strlit("quote");
        reveal_strlit("rabbit");
    }
    assert(prefixes_rise_upto(1411)) by {
        reveal_strlit("rabbit");
        reveal_strlit("raccoon");
    }
    assert(prefixes_rise_upto(1412)) by {
        reveal_strlit("raccoon");
        reveal_strlit("race");
    }
    assert(prefixes_rise_upto(1413)) by {
        reveal_strlit("race");
        reveal_strlit("rack");
    }
    assert(prefixes_rise_upto(1414)) by {
        reveal_strlit("rack");
        reveal_strlit("radar");
    }
    assert(prefixes_rise_upto(1415)) by {
        reveal_strlit("radar");
        reveal_strlit("radio");
    }
    assert(prefixes_rise_upto(1416)) by {
        reveal_strlit("radio");
        reveal_strlit("rail");
    }
    assert(prefixes_rise_upto(1417)) by {
        reveal_strlit("rail");
        reveal_strlit("rain");
    }
    assert(prefixes_rise_upto(1418)) by {
        reveal_strlit("rain");
        reveal_strlit("raise");
    }
    assert(prefixes_rise_upto(1419)) by {
        reveal_strlit("raise");
        reveal_strlit("rally");
    }
    assert(prefixes_rise_upto(1420)) by {
        reveal_strlit("rally");
        reveal_strlit("ramp");
    }
    assert(prefixes_rise_upto(1421)) by {
        reveal_strlit("ramp");
        reveal_strlit("ranch");
    }
    assert(prefixes_rise_upto(1422)) by {
        reveal_strlit("ranch");
        reveal_strlit("random");
    }
    assert(prefixes_rise_upto(1423)) by {
        reveal_strlit("random");
        reveal_strlit("range");
    }
    assert(prefixes_rise_upto(1424)) by {
        reveal_strlit("range");
        reveal_strlit("rapid");
    }
    assert(prefixes_rise_upto(1425)) by {
        reveal_strlit("rapid");
        reveal_strlit("rare");
    }
    assert(prefixes_rise_upto(1426)) by {
        reveal_strlit("rare");
        reveal_strlit("rate");
    }
    assert(prefixes_rise_upto(1427)) by {
        reveal_strlit("rate");
        reveal_strlit("rather");
    }
    assert(prefixes_rise_upto(1428)) by {
        reveal_strlit("rather");
        reveal_strlit("raven");
    }
    assert(prefixes_rise_upto(1429)) by {
        reveal_strlit("raven");
        reveal_strlit("raw");
    }
    assert(prefixes_rise_upto(1430)) by {
        reveal_strlit("raw");
        reveal_strlit("razor");
    }
    assert(prefixes_rise_upto(1431)) by {
        reveal_strlit("razor");
        reveal_strlit("ready");
    }
    assert(prefixes_rise_upto(1432)) by {
        reveal_strlit("ready");
        reveal_strlit("real");
    }
    assert(prefixes_rise_upto(1433)) by {
        reveal_strlit("real");
        reveal_strlit("reason");
    }
    assert(prefixes_rise_upto(1434)) by {
        reveal_strlit("reason");
        reveal_strlit("rebel");
    }
    assert(prefixes_rise_upto(1435)) by {
        reveal_strlit("rebel");
        reveal_strlit("rebuild");
    }
    assert(prefixes_rise_upto(1436)) by {
        reveal_strlit("rebuild");
        reveal_strlit("recall");
    }
    assert(prefixes_rise_upto(1437)) by {
        reveal_strlit("recall");
        reveal_strlit("receive");
    }
    assert(prefixes_rise_upto(1438)) by {
        reveal_strlit("receive");
        reveal_strlit("recipe");
    }
    assert(prefixes_rise_upto(1439)) by {
        reveal_strlit("recipe");
        reveal_strlit("record");
    }
    assert(prefixes_rise_upto(1440)) by {
        reveal_strlit("record");
        reveal_strlit("recycle");
    }
}

#[verifier::rlimit(30)]
proof fn lemma_prefix_block_45()
    requires
        prefixes_rise_upto(1440),
    ensures
        prefixes_rise_upto(1472),
{
    assert(prefixes_rise_upto(1441)) by {
        reveal_strlit("recycle");
        reveal_strlit("reduce");
    }
    assert(prefixes_rise_upto(1442)) by {
        reveal_strlit("reduce");
        reveal_strlit("reflect");
    }
    assert(prefixes_rise_upto(1443)) by {
        reveal_strlit("reflect");
        reveal_strlit("reform");
    }
    assert(prefixes_rise_upto(1444)) by {
        reveal_strlit("reform");
        reveal_strlit("refuse");
    }
    assert(prefixes_rise_upto(1445)) by {
        reveal_strlit("refuse");
        reveal_strlit("region");
    }
    assert(prefixes_rise_upto(1446)) by {
        reveal_strlit("region");
        reveal_strlit("regret");
    }
    assert(prefixes_rise_upto(1447)) by {
        reveal_strlit("regret");
        reveal_strlit("regular");
    }
    assert(prefixes_rise_upto(1448)) by {
        reveal_strlit("regular");
        reveal_strlit("reject");
    }
    assert(prefixes_rise_upto(1449)) by {
        reveal_strlit("reject");
        reveal_strlit("relax");
    }
    assert(prefixes_rise_upto(1450)) by {
        reveal_strlit("relax");
        reveal_strlit("release");
    }
    assert(prefixes_rise_upto(1451)) by {
        reveal_strlit("release");
        reveal_strlit("relief");
    }
    assert(prefixes_rise_upto(1452)) by {
        reveal_strlit("relief");
        reveal_strlit("rely");
    }
    assert(prefixes_rise_upto(1453)) by {
        reveal_strlit("rely");
        reveal_strlit("remain");
    }
    assert(prefixes_rise_upto(1454)) by {
        reveal_strlit("remain");
        reveal_strlit("remember");
    }
    assert(prefixes_rise_upto(1455)) by {
        reveal_strlit("remember");
        reveal_strlit("remind");
    }
    assert(prefixes_rise_upto(1456)) by {
        reveal_strlit("remind");
        reveal_strlit("remove");
    }
    assert(prefixes_rise_upto(1457)) by {
        reveal_strlit("remove");
        reveal_strlit("render");
    }
    assert(prefixes_rise_upto(1458)) by {
        reveal_strlit("render");
        reveal_strlit("renew");
    }
    assert(prefixes_rise_upto(1459)) by {
        reveal_strlit("renew");
        reveal_strlit("rent");
    }
    assert(prefixes_rise_upto(1460)) by {
        reveal_strlit("rent");
        reveal_strlit("reopen");
    }
    assert(prefixes_rise_upto(1461)) by {
        reveal_strlit("reopen");
        reveal_strlit("repair");
    }
    assert(prefixes_rise_upto(1462)) by {
        reveal_strlit("repair");
        reveal_strlit("repeat");
    }
    assert(prefixes_rise_upto(1463)) by {
        reveal_strlit("repeat");
        reveal_strlit("replace");
    }
    assert(prefixes_rise_upto(1464)) by {
        reveal_strlit("replace");
        reveal_strlit("report");
    }
    assert(prefixes_rise_upto(1465)) by {
        reveal_strlit("report");
        reveal_strlit("require");
    }
    assert(prefixes_rise_upto(1466)) by {
        reveal_strlit("require");
        reveal_strlit("rescue");
    }
    assert(prefixes_rise_upto(1467)) by {
        reveal_strlit("rescue");
        reveal_strlit("resemble");
    }
    assert(prefixes_rise_upto(1468)) by {
        reveal_strlit("resemble");
        reveal_strlit("resist");
    }
    assert(prefixes_rise_upto(1469)) by {
        reveal_strlit("resist");
        reveal_strlit("resource");
    }
    assert(prefixes_rise_upto(1470)) by {
        reveal_strlit("resource");
        reveal_strlit("response");
    }
    assert(prefixes_rise_upto(1471)) by {
        reveal_strlit("response");
        reveal_strlit("result");
    }
    assert(prefixes_rise_upto(1472)) by {
        reveal_strlit("result");
        reveal_strlit("retire");
    }
}

#[verifier::rlimit(30)]
proof fn lemma_prefix_block_46()
    requires
        prefixes_rise_upto(1472),
    ensures
        prefixes_rise_upto(1504),
{
    assert(prefixes_rise_upto(1473)) by {
        reveal_strlit("retire");
        reveal_strlit("retreat");
    }
    assert(prefixes_rise_upto(1474)) by {
        reveal_strlit("retreat");
        reveal_strlit("return");
    }
    assert(prefixes_rise_upto(1475)) by {
        reveal_strlit("return");
        reveal_strlit("reunion");
    }
    assert(prefixes_rise_upto(1476)) by {
        reveal_strlit("reunion");
        reveal_strlit("reveal");
    }
    assert(prefixes_rise_upto(1477)) by {
        reveal_strlit("reveal");
        reveal_strlit("review");
    }
    assert(prefixes_rise_upto(1478)) by {
        reveal_strlit("review");
        reveal_strlit("reward");
    }
    assert(prefixes_rise_upto(1479)) by {
        reveal_strlit("reward");
        reveal_strlit("rhythm");
    }
    assert(prefixes_rise_upto(1480)) by {
        reveal_strlit("rhythm");
        reveal_strlit("rib");
    }
    assert(prefixes_rise_upto(1481)) by {
        reveal_strlit("rib");
        reveal_strlit("ribbon");
    }
    assert(prefixes_rise_upto(1482)) by {
        reveal_strlit("ribbon");
        reveal_strlit("rice");
    }
    assert(prefixes_rise_upto(1483)) by {
        reveal_strlit("rice");
        reveal_strlit("rich");
    }
    assert(prefixes_rise_upto(1484)) by {
        reveal_strlit("rich");
        reveal_strlit("ride");
    }
    assert(prefixes_rise_upto(1485)) by {
        reveal_strlit("ride");
        reveal_strlit("ridge");
    }
    assert(prefixes_rise_upto(1486)) by {
        reveal_strlit("ridge");
        reveal_strlit("rifle");
    }
    assert(prefixes_rise_upto(1487)) by {
        reveal_strlit("rifle");
        reveal_strlit("right");
    }
    assert(prefixes_rise_upto(1488)) by {
        reveal_strlit("right");
        reveal_strlit("rigid");
    }
    assert(prefixes_rise_upto(1489)) by {
        reveal_strlit("rigid");
        reveal_strlit("ring");
    }
    assert(prefixes_rise_upto(1490)) by {
        reveal_strlit("ring");
        reveal_strlit("riot");
    }
    assert(prefixes_rise_upto(1491)) by {
        reveal_strlit("riot");
        reveal_strlit("ripple");
    }
    assert(prefixes_rise_upto(1492)) by {
        reveal_strlit("ripple");
        reveal_strlit("risk");
    }
    assert(prefixes_rise_upto(1493)) by {
        reveal_strlit("risk");
        reveal_strlit("ritual");
    }
    assert(prefixes_rise_upto(1494)) by {
        reveal_strlit("ritual");
        reveal_strlit("rival");
    }
    assert(prefixes_rise_upto(1495)) by {
        reveal_strlit("rival");
        reveal_strlit("river");
    }
    assert(prefixes_rise_upto(1496)) by {
        reveal_strlit("river");
        reveal_strlit("road");
    }
    assert(prefixes_rise_upto(1497)) by {
        reveal_strlit("road");
        reveal_strlit("roast");
    }
    assert(prefixes_rise_upto(1498)) by {
        reveal_strlit("roast");
        reveal_strlit("robot");
    }
    assert(prefixes_rise_upto(1499)) by {
        reveal_strlit("robot");
        reveal_strlit("robust");
    }
    assert(prefixes_rise_upto(1500)) by {
        reveal_strlit("robust");
        reveal_strlit("rocket");
    }
    assert(prefixes_rise_upto(1501)) by {
        reveal_strlit("rocket");
        reveal_strlit("romance");
    }
    assert(prefixes_rise_upto(1502)) by {
        reveal_strlit("romance");
        reveal_strlit("roof");
    }
    assert(prefixes_rise_upto(1503)) by {
        reveal_strlit("roof");
        reveal_strlit("rookie");
    }
    assert(prefixes_rise_upto(1504)) by {
        reveal_strlit("rookie");
        reveal_strlit("room");
    }
}

#[verifier::rlimit(30)]
proof fn lemma_prefix_block_47()
    requires
        prefixes_rise_upto(1504),
    ensures
        prefixes_rise_upto(1536),
{
    assert(prefixes_rise_upto(1505)) by {
        reveal_strlit("room");
        reveal_strlit("rose");
    }
    assert(prefixes_rise_upto(1506)) by {
        reveal_strlit("rose");
        reveal_strlit("rotate");
    }
    assert(prefixes_rise_upto(1507)) by {
        reveal_strlit("rotate");
        reveal_strlit("rough");
    }
    assert(prefixes_rise_upto(1508)) by {
        reveal_strlit("rough");
        reveal_strlit("round");
    }
    assert(prefixes_rise_upto(1509)) by {
        reveal_strlit("round");
        reveal_strlit("route");
    }
    assert(prefixes_rise_upto(1510)) by {
        reveal_strlit("route");
        reveal_strlit("royal");
    }
    assert(prefixes_rise_upto(1511)) by {
        reveal_strlit("royal");
        reveal_strlit("rubber");
    }
    assert(prefixes_rise_upto(1512)) by {
        reveal_strlit("rubber");
        reveal_strlit("rude");
    }
    assert(prefixes_rise_upto(1513)) by {
        reveal_strlit("rude");
        reveal_strlit("rug");
    }
    assert(prefixes_rise_upto(1514)) by {
        reveal_strlit("rug");
        reveal_strlit("rule");
    }
    assert(prefixes_rise_upto(1515)) by {
        reveal_strlit("rule");
        reveal_strlit("run");
    }
    assert(prefixes_rise_upto(1516)) by {
        reveal_strlit("run");
        reveal_strlit("runway");
    }
    assert(prefixes_rise_upto(1517)) by {
        reveal_strlit("runway");
        reveal_strlit("rural");
    }
    assert(prefixes_rise_upto(1518)) by {
        reveal_strlit("rural");
        reveal_strlit("sad");
    }
    assert(prefixes_rise_upto(1519)) by {
        reveal_strlit("sad");
        reveal_strlit("saddle");
    }
    assert(prefixes_rise_upto(1520)) by {
        reveal_strlit("saddle");
        reveal_strlit("sadness");
    }
    assert(prefixes_rise_upto(1521)) by {
        reveal_strlit("sadness");
        reveal_strlit("safe");
    }
    assert(prefixes_rise_upto(1522)) by {
        reveal_strlit("safe");
        reveal_strlit("sail");
    }
    assert(prefixes_rise_upto(1523)) by {
        reveal_strlit("sail");
        reveal_strlit("salad");
    }
    assert(prefixes_rise_upto(1524)) by {
        reveal_strlit("salad");
        reveal_strlit("salmon");
    }
    assert(prefixes_rise_upto(1525)) by {
        reveal_strlit("salmon");
        reveal_strlit("salon");
    }
    assert(prefixes_rise_upto(1526)) by {
        reveal_strlit("salon");
        reveal_strlit("salt");
    }
    assert(prefixes_rise_upto(1527)) by {
        reveal_strlit("salt");
        reveal_strlit("salute");
    }
    assert(prefixes_rise_upto(1528)) by {
        reveal_strlit("salute");
        reveal_strlit("same");
    }
    assert(prefixes_rise_upto(1529)) by {
        reveal_strlit("same");
        reveal_strlit("sample");
    }
    assert(prefixes_rise_upto(1530)) by {
        reveal_strlit("sample");
        reveal_strlit("sand");
    }
    assert(prefixes_rise_upto(1531)) by {
        reveal_strlit("sand");
        reveal_strlit("satisfy");
    }
    assert(prefixes_rise_upto(1532)) by {
        reveal_strlit("satisfy");
        reveal_strlit("satoshi");
    }
    assert(prefixes_rise_upto(1533)) by {
        reveal_strlit("satoshi");
        reveal_strlit("sauce");
    }
    assert(prefixes_rise_upto(1534)) by {
        reveal_strlit("sauce");
        reveal_strlit("sausage");
    }
    assert(prefixes_rise_upto(1535)) by {
        reveal_strlit("sausage");
        reveal_strlit("save");
    }
    assert(prefixes_rise_upto(1536)) by {
        reveal_strlit("save");
        reveal_strlit("say");
    }
}

#[verifier::rlimit(30)]
proof fn lemma_prefix_block_48()
    requires
        prefixes_rise_upto(1536),
    ensures
        prefixes_rise_upto(1568),
{
    assert(prefixes_rise_upto(1537)) by {
        reveal_strlit("say");
        reveal_strlit("scale");
    }
    assert(prefixes_rise_upto(1538)) by {
        reveal_strlit("scale");
        reveal_strlit("scan");
    }
    assert(prefixes_rise_upto(1539)) by {
        reveal_strlit("scan");
        reveal_strlit("scare");
    }
    assert(prefixes_rise_upto(1540)) by {
        reveal_strlit("scare");
        reveal_strlit("scatter");
    }
    assert(prefixes_rise_upto(1541)) by {
        reveal_strlit("scatter");
        reveal_strlit("scene");
    }
    assert(prefixes_rise_upto(1542)) by {
        reveal_strlit("scene");
        reveal_strlit("scheme");
    }
    assert(prefixes_rise_upto(1543)) by {
        reveal_strlit("scheme");
        reveal_strlit("school");
    }
    assert(prefixes_rise_upto(1544)) by {
        reveal_strlit("school");
        reveal_strlit("science");
    }
    assert(prefixes_rise_upto(1545)) by {
        reveal_strlit("science");
        reveal_strlit("scissors");
    }
    assert(prefixes_rise_upto(1546)) by {
        reveal_strlit("scissors");
        reveal_strlit("scorpion");
    }
    assert(prefixes_rise_upto(1547)) by {
        reveal_strlit("scorpion");
        reveal_strlit("scout");
    }
    assert(prefixes_rise_upto(1548)) by {
        reveal_strlit("scout");
        reveal_strlit("scrap");
    }
    assert(prefixes_rise_upto(1549)) by {
        reveal_strlit("scrap");
        reveal_strlit("screen");
    }
    assert(prefixes_rise_upto(1550)) by {
        reveal_strlit("screen");
        reveal_strlit("script");
    }
    assert(prefixes_rise_upto(1551)) by {
        reveal_strlit("script");
        reveal_strlit("scrub");
    }
    assert(prefixes_rise_upto(1552)) by {
        reveal_strlit("scrub");
        reveal_strlit("sea");
    }
    assert(prefixes_rise_upto(1553)) by {
        reveal_strlit("sea");
        reveal_strlit("search");
    }
    assert(prefixes_rise_upto(1554)) by {
        reveal_strlit("search");
        reveal_strlit("season");
    }
    assert(prefixes_rise_upto(1555)) by {
        reveal_strlit("season");
        reveal_strlit("seat");
    }
    assert(prefixes_rise_upto(1556)) by {
        reveal_strlit("seat");
        reveal_strlit("second");
    }
    assert(prefixes_rise_upto(1557)) by {
        reveal_strlit("second");
        reveal_strlit("secret");
    }
    assert(prefixes_rise_upto(1558)) by {
        reveal_strlit("secret");
        reveal_strlit("section");
    }
    assert(prefixes_rise_upto(1559)) by {
        reveal_strlit("section");
        reveal_strlit("security");
    }
    assert(prefixes_rise_upto(1560)) by {
        reveal_strlit("security");
        reveal_strlit("seed");
    }
    assert(prefixes_rise_upto(1561)) by {
        reveal_strlit("seed");
        reveal_strlit("seek");
    }
    assert(prefixes_rise_upto(1562)) by {
        reveal_strlit("seek");
        reveal_strlit("segment");
    }
    assert(prefixes_rise_upto(1563)) by {
        reveal_strlit("segment");
        reveal_strlit("select");
    }
    assert(prefixes_rise_upto(1564)) by {
        reveal_strlit("select");
        reveal_strlit("sell");
    }
    assert(prefixes_rise_upto(1565)) by {
        reveal_strlit("sell");
        reveal_strlit("seminar");
    }
    assert(prefixes_rise_upto(1566)) by {
        reveal_strlit("seminar");
        reveal_strlit("senior");
    }
    assert(prefixes_rise_upto(1567)) by {
        reveal_strlit("senior");
        reveal_strlit("sense");
    }
    assert(prefixes_rise_upto(1568)) by {
        reveal_strlit("sense");
        reveal_strlit("sentence");
    }
}

#[verifier::rlimit(30)]
proof fn lemma_prefix_block_49()
    requires
        prefixes_rise_upto(1568),
    ensures
        prefixes_rise_upto(1600),
{
    assert(prefixes_rise_upto(1569)) by {
        reveal_strlit("sentence");
        reveal_strlit("series");
    }
    assert(prefixes_rise_upto(1570)) by {
        reveal_strlit("series");
        reveal_strlit("service");
    }
    assert(prefixes_rise_upto(1571)) by {
        reveal_strlit("service");
        reveal_strlit("session");
    }
    assert(prefixes_rise_upto(1572)) by {
        reveal_strlit("session");
        reveal_strlit("settle");
    }
    assert(prefixes_rise_upto(1573)) by {
        reveal_strlit("settle");
        reveal_strlit("setup");
    }
    assert(prefixes_rise_upto(1574)) by {
        reveal_strlit("setup");
        reveal_strlit("seven");
    }
    assert(prefixes_rise_upto(1575)) by {
        reveal_strlit("seven");
        reveal_strlit("shadow");
    }
    assert(prefixes_rise_upto(1576)) by {
        reveal_strlit("shadow");
        reveal_strlit("shaft");
    }
    assert(prefixes_rise_upto(1577)) by {
        reveal_strlit("shaft");
        reveal_strlit("shallow");
    }
    assert(prefixes_rise_upto(1578)) by {
        reveal_strlit("shallow");
        reveal_strlit("share");
    }
    assert(prefixes_rise_upto(1579)) by {
        reveal_strlit("share");
        reveal_strlit("shed");
    }
    assert(prefixes_rise_upto(1580)) by {
        reveal_strlit("shed");
        reveal_strlit("shell");
    }
    assert(prefixes_rise_upto(1581)) by {
        reveal_strlit("shell");
        reveal_strlit("sheriff");
    }
    assert(prefixes_rise_upto(1582)) by {
        reveal_strlit("sheriff");
        reveal_strlit("shield");
    }
    assert(prefixes_rise_upto(1583)) by {
        reveal_strlit("shield");
        reveal_strlit("shift");
    }
    assert(prefixes_rise_upto(1584)) by {
        reveal_strlit("shift");
        reveal_strlit("shine");
    }
    assert(prefixes_rise_upto(1585)) by {
        reveal_strlit("shine");
        reveal_strlit("ship");
    }
    assert(prefixes_rise_upto(1586)) by {
        reveal_strlit("ship");
        reveal_strlit("shiver");
    }
    assert(prefixes_rise_upto(1587)) by {
        reveal_strlit("shiver");
        reveal_strlit("shock");
    }
    assert(prefixes_rise_upto(1588)) by {
        reveal_strlit("shock");
        reveal_strlit("shoe");
    }
    assert(prefixes_rise_upto(1589)) by {
        reveal_strlit("shoe");
        reveal_strlit("shoot");
    }
    assert(prefixes_rise_upto(1590)) by {
        reveal_strlit("shoot");
        reveal_strlit("shop");
    }
    assert(prefixes_rise_upto(1591)) by {
        reveal_strlit("shop");
        reveal_strlit("short");
    }
    assert(prefixes_rise_upto(1592)) by {
        reveal_strlit("short");
        reveal_strlit("shoulder");
    }
    assert(prefixes_rise_upto(1593)) by {
        reveal_strlit("shoulder");
        reveal_strlit("shove");
    }
    assert(prefixes_rise_upto(1594)) by {
        reveal_strlit("shove");
        reveal_strlit("shrimp");
    }
    assert(prefixes_rise_upto(1595)) by {
        reveal_strlit("shrimp");
        reveal_strlit("shrug");
    }
    assert(prefixes_rise_upto(1596)) by {
        reveal_strlit("shrug");
        reveal_strlit("shuffle");
    }
    assert(prefixes_rise_upto(1597)) by {
        reveal_strlit("shuffle");
        reveal_strlit("shy");
    }
    assert(prefixes_rise_upto(1598)) by {
        reveal_strlit("shy");
        reveal_strlit("sibling");
    }
    assert(prefixes_rise_upto(1599)) by {
        reveal_strlit("sibling");
        reveal_strlit("sick");
    }
    assert(prefixes_rise_upto(1600)) by {
        reveal_strlit("sick");
        reveal_strlit("side");
    }
}

#[verifier::rlimit(30)]
proof fn lemma_prefix_block_50()
    requires
        prefixes_rise_upto(1600),
    ensures
        prefixes_rise_upto(1632),
{
    assert(prefixes_rise_upto(1601)) by {
        reveal_strlit("side");
        reveal_strlit("siege");
    }
    assert(prefixes_rise_upto(1602)) by {
        reveal_strlit("siege");
        reveal_strlit("sight");
    }
    assert(prefixes_rise_upto(1603)) by {
        reveal_strlit("sight");
        reveal_strlit("sign");
    }
    assert(prefixes_rise_upto(1604)) by {
        reveal_strlit("sign");
        reveal_strlit("silent");
    }
    assert(prefixes_rise_upto(1605)) by {
        reveal_strlit("silent");
        reveal_strlit("silk");
    }
    assert(prefixes_rise_upto(1606)) by {
        reveal_strlit("silk");
        reveal_strlit("silly");
    }
    assert(prefixes_rise_upto(1607)) by {
        reveal_strlit("silly");
        reveal_strlit("silver");
    }
    assert(prefixes_rise_upto(1608)) by {
        reveal_strlit("silver");
        reveal_strlit("similar");
    }
    assert(prefixes_rise_upto(1609)) by {
        reveal_strlit("similar");
        reveal_strlit("simple");
    }
    assert(prefixes_rise_upto(1610)) by {
        reveal_strlit("simple");
        reveal_strlit("since");
    }
    assert(prefixes_rise_upto(1611)) by {
        reveal_strlit("since");
        reveal_strlit("sing");
    }
    assert(prefixes_rise_upto(1612)) by {
        reveal_strlit("sing");
        reveal_strlit("siren");
    }
    assert(prefixes_rise_upto(1613)) by {
        reveal_strlit("siren");
        reveal_strlit("sister");
    }
    assert(prefixes_rise_upto(1614)) by {
        reveal_strlit("sister");
        reveal_strlit("situate");
    }
    assert(prefixes_rise_upto(1615)) by {
        reveal_strlit("situate");
        reveal_strlit("six");
    }
    assert(prefixes_rise_upto(1616)) by {
        reveal_strlit("six");
        reveal_strlit("size");
    }
    assert(prefixes_rise_upto(1617)) by {
        reveal_strlit("size");
        reveal_strlit("skate");
    }
    assert(prefixes_rise_upto(1618)) by {
        reveal_strlit("skate");
        reveal_strlit("sketch");
    }
    assert(prefixes_rise_upto(1619)) by {
        reveal_strlit("sketch");
        reveal_strlit("ski");
    }
    assert(prefixes_rise_upto(1620)) by {
        reveal_strlit("ski");
        reveal_strlit("skill");
    }
    assert(prefixes_rise_upto(1621)) by {
        reveal_strlit("skill");
        reveal_strlit("skin");
    }
    assert(prefixes_rise_upto(1622)) by {
        reveal_strlit("skin");
        reveal_strlit("skirt");
    }
    assert(prefixes_rise_upto(1623)) by {
        reveal_strlit("skirt");
        reveal_strlit("skull");
    }
    assert(prefixes_rise_upto(1624)) by {
        reveal_strlit("skull");
        reveal_strlit("slab");
    }
    assert(prefixes_rise_upto(1625)) by {
        reveal_strlit("slab");
        reveal_strlit("slam");
    }
    assert(prefixes_rise_upto(1626)) by {
        reveal_strlit("slam");
        reveal_strlit("sleep");
    }
    assert(prefixes_rise_upto(1627)) by {
        reveal_strlit("sleep");
        reveal_strlit("slender");
    }
    assert(prefixes_rise_upto(1628)) by {
        reveal_strlit("slender");
        reveal_strlit("slice");
    }
    assert(prefixes_rise_upto(1629)) by {
        reveal_strlit("slice");
        reveal_strlit("slide");
    }
    assert(prefixes_rise_upto(1630)) by {
        reveal_strlit("slide");
        reveal_strlit("slight");
    }
    assert(prefixes_rise_upto(1631)) by {
        reveal_strlit("slight");
        reveal_strlit("slim");
    }
    assert(prefixes_rise_upto(1632)) by {
        reveal_strlit("slim");
        reveal_strlit("slogan");
    }
}

#[verifier::rlimit(30)]
proof fn lemma_prefix_block_51()
    requires
        prefixes_rise_upto(1632),
    ensures
        prefixes_rise_upto(1664),
{
    assert(prefixes_rise_upto(1633)) by {
        reveal_strlit("slogan");
        reveal_strlit("slot");
    }
    assert(prefixes_rise_upto(1634)) by {
        reveal_strlit("slot");
        reveal_strlit("slow");
    }
    assert(prefixes_rise_upto(1635)) by {
        reveal_strlit("slow");
        reveal_strlit("slush");
    }
    assert(prefixes_rise_upto(1636)) by {
        reveal_strlit("slush");
        reveal_strlit("small");
    }
    assert(prefixes_rise_upto(1637)) by {
        reveal_strlit("small");
        reveal_strlit("smart");
    }
    assert(prefixes_rise_upto(1638)) by {
        reveal_strlit("smart");
        reveal_strlit("smile");
    }
    assert(prefixes_rise_upto(1639)) by {
        reveal_strlit("smile");
        reveal_strlit("smoke");
    }
    assert(prefixes_rise_upto(1640)) by {
        reveal_strlit("smoke");
        reveal_strlit("smooth");
    }
    assert(prefixes_rise_upto(1641)) by {
        reveal_strlit("smooth");
        reveal_strlit("snack");
    }
    assert(prefixes_rise_upto(1642)) by {
        reveal_strlit("snack");
        reveal_strlit("snake");
    }
    assert(prefixes_rise_upto(1643)) by {
        reveal_strlit("snake");
        reveal_strlit("snap");
    }
    assert(prefixes_rise_upto(1644)) by {
        reveal_strlit("snap");
        reveal_strlit("sniff");
    }
    assert(prefixes_rise_upto(1645)) by {
        reveal_strlit("sniff");
        reveal_strlit("snow");
    }
    assert(prefixes_rise_upto(1646)) by {
        reveal_strlit("snow");
        reveal_strlit("soap");
    }
    assert(prefixes_rise_upto(1647)) by {
        reveal_strlit("soap");
        reveal_strlit("soccer");
    }
    assert(prefixes_rise_upto(1648)) by {
        reveal_strlit("soccer");
        reveal_strlit("social");
    }
    assert(prefixes_rise_upto(1649)) by {
        reveal_strlit("social");
        reveal_strlit("sock");
    }
    assert(prefixes_rise_upto(1650)) by {
        reveal_strlit("sock");
        reveal_strlit("soda");
    }
    assert(prefixes_rise_upto(1651)) by {
        reveal_strlit("soda");
        reveal_strlit("soft");
    }
    assert(prefixes_rise_upto(1652)) by {
        reveal_strlit("soft");
        reveal_strlit("solar");
    }
    assert(prefixes_rise_upto(1653)) by {
        reveal_strlit("solar");
        reveal_strlit("soldier");
    }
    assert(prefixes_rise_upto(1654)) by {
        reveal_strlit("soldier");
        reveal_strlit("solid");
    }
    assert(prefixes_rise_upto(1655)) by {
        reveal_strlit("solid");
        reveal_strlit("solution");
    }
    assert(prefixes_rise_upto(1656)) by {
        reveal_strlit("solution");
        reveal_strlit("solve");
    }
    assert(prefixes_rise_upto(1657)) by {
        reveal_strlit("solve");
        reveal_strlit("someone");
    }
    assert(prefixes_rise_upto(1658)) by {
        reveal_strlit("someone");
        reveal_strlit("song");
    }
    assert(prefixes_rise_upto(1659)) by {
        reveal_strlit("song");
        reveal_strlit("soon");
    }
    assert(prefixes_rise_upto(1660)) by {
        reveal_strlit("soon");
        reveal_strlit("sorry");
    }
    assert(prefixes_rise_upto(1661)) by {
        reveal_strlit("sorry");
        reveal_strlit("sort");
    }
    assert(prefixes_rise_upto(1662)) by {
        reveal_strlit("sort");
        reveal_strlit("soul");
    }
    assert(prefixes_rise_upto(1663)) by {
        reveal_strlit("soul");
        reveal_strlit("sound");
    }
    assert(prefixes_rise_upto(1664)) by {
        reveal_strlit("sound");
        reveal_strlit("soup");
    }
}

#[verifier::rlimit(30)]
proof fn lemma_prefix_block_52()
    requires
        prefixes_rise_upto(1664),
    ensures
        prefixes_rise_upto(1696),
{
    assert(prefixes_rise_upto(1665)) by {
        reveal_strlit("soup");
        reveal_strlit("source");
    }
    assert(prefixes_rise_upto(1666)) by {
        reveal_strlit("source");
        reveal_strlit("south");
    }
    assert(prefixes_rise_upto(1667)) by {
        reveal_strlit("south");
        reveal_strlit("space");
    }
    assert(prefixes_rise_upto(1668)) by {
        reveal_strlit("space");
        reveal_strlit("spare");
    }
    assert(prefixes_rise_upto(1669)) by {
        reveal_strlit("spare");
        reveal_strlit("spatial");
    }
    assert(prefixes_rise_upto(1670)) by {
        reveal_strlit("spatial");
        reveal_strlit("spawn");
    }
    assert(prefixes_rise_upto(1671)) by {
        reveal_strlit("spawn");
        reveal_strlit("speak");
    }
    assert(prefixes_rise_upto(1672)) by {
        reveal_strlit("speak");
        reveal_strlit("special");
    }
    assert(prefixes_rise_upto(1673)) by {
        reveal_strlit("special");
        reveal_strlit("speed");
    }
    assert(prefixes_rise_upto(1674)) by {
        reveal_strlit("speed");
        reveal_strlit("spell");
    }
    assert(prefixes_rise_upto(1675)) by {
        reveal_strlit("spell");
        reveal_strlit("spend");
    }
    assert(prefixes_rise_upto(1676)) by {
        reveal_strlit("spend");
        reveal_strlit("sphere");
    }
    assert(prefixes_rise_upto(1677)) by {
        reveal_strlit("sphere");
        reveal_strlit("spice");
    }
    assert(prefixes_rise_upto(1678)) by {
        reveal_strlit("spice");
        reveal_strlit("spider");
    }
    assert(prefixes_rise_upto(1679)) by {
        reveal_strlit("spider");
        reveal_strlit("spike");
    }
    assert(prefixes_rise_upto(1680)) by {
        reveal_strlit("spike");
        reveal_strlit("spin");
    }
    assert(prefixes_rise_upto(1681)) by {
        reveal_strlit("spin");
        reveal_strlit("spirit");
    }
    assert(prefixes_rise_upto(1682)) by {
        reveal_strlit("spirit");
        reveal_strlit("split");
    }
    assert(prefixes_rise_upto(1683)) by {
        reveal_strlit("split");
        reveal_strlit("spoil");
    }
    assert(prefixes_rise_upto(1684)) by {
        reveal_strlit("spoil");
        reveal_strlit("sponsor");
    }
    assert(prefixes_rise_upto(1685)) by {
        reveal_strlit("sponsor");
        reveal_strlit("spoon");
    }
    assert(prefixes_rise_upto(1686)) by {
        reveal_strlit("spoon");
        reveal_strlit("sport");
    }
    assert(prefixes_rise_upto(1687)) by {
        reveal_strlit("sport");
        reveal_strlit("spot");
    }
    assert(prefixes_rise_upto(1688)) by {
        reveal_strlit("spot");
        reveal_strlit("spray");
    }
    assert(prefixes_rise_upto(1689)) by {
        reveal_strlit("spray");
        reveal_strlit("spread");
    }
    assert(prefixes_rise_upto(1690)) by {
        reveal_strlit("spread");
        reveal_strlit("spring");
    }
    assert(prefixes_rise_upto(1691)) by {
        reveal_strlit("spring");
        reveal_strlit("spy");
    }
    assert(prefixes_rise_upto(1692)) by {
        reveal_strlit("spy");
        reveal_strlit("square");
    }
    assert(prefixes_rise_upto(1693)) by {
        reveal_strlit("square");
        reveal_strlit("squeeze");
    }
    assert(prefixes_rise_upto(1694)) by {
        reveal_strlit("squeeze");
        reveal_strlit("squirrel");
    }
    assert(prefixes_rise_upto(1695)) by {
        reveal_strlit("squirrel");
        reveal_strlit("stable");
    }
    assert(prefixes_rise_upto(1696)) by {
        reveal_strlit("stable");
        reveal_strlit("stadium");
    }
}

#[verifier::rlimit(30)]
proof fn lemma_prefix_block_53()
    requires
        prefixes_rise_upto(1696),
    ensures
        prefixes_rise_upto(1728),
{
    assert(prefixes_rise_upto(1697)) by {
        reveal_strlit("stadium");
        reveal_strlit("staff");
    }
    assert(prefixes_rise_upto(1698)) by {
        reveal_strlit("staff");
        reveal_strlit("stage");
    }
    assert(prefixes_rise_upto(1699)) by {
        reveal_strlit("stage");
        reveal_strlit("stairs");
    }
    assert(prefixes_rise_upto(1700)) by {
        reveal_strlit("stairs");
        reveal_strlit("stamp");
    }
    assert(prefixes_rise_upto(1701)) by {
        reveal_strlit("stamp");
        reveal_strlit("stand");
    }
    assert(prefixes_rise_upto(1702)) by {
        reveal_strlit("stand");
        reveal_strlit("start");
    }
    assert(prefixes_rise_upto(1703)) by {
        reveal_strlit("start");
        reveal_strlit("state");
    }
    assert(prefixes_rise_upto(1704)) by {
        reveal_strlit("state");
        reveal_strlit("stay");
    }
    assert(prefixes_rise_upto(1705)) by {
        reveal_strlit("stay");
        reveal_strlit("steak");
    }
    assert(prefixes_rise_upto(1706)) by {
        reveal_strlit("steak");
        reveal_strlit("steel");
    }
    assert(prefixes_rise_upto(1707)) by {
        reveal_strlit("steel");
        reveal_strlit("stem");
    }
    assert(prefixes_rise_upto(1708)) by {
        reveal_strlit("stem");
        reveal_strlit("step");
    }
    assert(prefixes_rise_upto(1709)) by {
        reveal_strlit("step");
        reveal_strlit("stereo");
    }
    assert(prefixes_rise_upto(1710)) by {
        reveal_strlit("stereo");
        reveal_strlit("stick");
    }
    assert(prefixes_rise_upto(1711)) by {
        reveal_strlit("stick");
        reveal_strlit("still");
    }
    assert(prefixes_rise_upto(1712)) by {
        reveal_strlit("still");
        reveal_strlit("sting");
    }
    assert(prefixes_rise_upto(1713)) by {
        reveal_strlit("sting");
        reveal_strlit("stock");
    }
    assert(prefixes_rise_upto(1714)) by {
        reveal_strlit("stock");
        reveal_strlit("stomach");
    }
    assert(prefixes_rise_upto(1715)) by {
        reveal_strlit("stomach");
        reveal_strlit("stone");
    }
    assert(prefixes_rise_upto(1716)) by {
        reveal_strlit("stone");
        reveal_strlit("stool");
    }
    assert(prefixes_rise_upto(1717)) by {
        reveal_strlit("stool");
        reveal_strlit("story");
    }
    assert(prefixes_rise_upto(1718)) by {
        reveal_strlit("story");
        reveal_strlit("stove");
    }
    assert(prefixes_rise_upto(1719)) by {
        reveal_strlit("stove");
        reveal_strlit("strategy");
    }
    assert(prefixes_rise_upto(1720)) by {
        reveal_strlit("strategy");
        reveal_strlit("street");
    }
    assert(prefixes_rise_upto(1721)) by {
        reveal_strlit("street");
        reveal_strlit("strike");
    }
    assert(prefixes_rise_upto(1722)) by {
        reveal_strlit("strike");
        reveal_strlit("strong");
    }
    assert(prefixes_rise_upto(1723)) by {
        reveal_strlit("strong");
        reveal_strlit("struggle");
    }
    assert(prefixes_rise_upto(1724)) by {
        reveal_strlit("struggle");
        reveal_strlit("student");
    }
    assert(prefixes_rise_upto(1725)) by {
        reveal_strlit("student");
        reveal_strlit("stuff");
    }
    assert(prefixes_rise_upto(1726)) by {
        reveal_strlit("stuff");
        reveal_strlit("stumble");
    }
    assert(prefixes_rise_upto(1727)) by {
        reveal_strlit("stumble");
        reveal_strlit("style");
    }
    assert(prefixes_rise_upto(1728)) by {
        reveal_strlit("style");
        reveal_strlit("subject");
    }
}

#[verifier::rlimit(30)]
proof fn lemma_prefix_block_54()
    requires
        prefixes_rise_upto(1728),
    ensures
        prefixes_rise_upto(1760),
{
    assert(prefixes_rise_upto(1729)) by {
        reveal_strlit("subject");
        reveal_strlit("submit");
    }
    assert(prefixes_rise_upto(1730)) by {
        reveal_strlit("submit");
        reveal_strlit("subway");
    }
    assert(prefixes_rise_upto(1731)) by {
        reveal_strlit("subway");
        reveal_strlit("success");
    }
    assert(prefixes_rise_upto(1732)) by {
        reveal_strlit("success");
        reveal_strlit("such");
    }
    assert(prefixes_rise_upto(1733)) by {
        reveal_strlit("such");
        reveal_strlit("sudden");
    }
    assert(prefixes_rise_upto(1734)) by {
        reveal_strlit("sudden");
        reveal_strlit("suffer");
    }
    assert(prefixes_rise_upto(1735)) by {
        reveal_strlit("suffer");
        reveal_strlit("sugar");
    }
    assert(prefixes_rise_upto(1736)) by {
        reveal_strlit("sugar");
        reveal_strlit("suggest");
    }
    assert(prefixes_rise_upto(1737)) by {
        reveal_strlit("suggest");
        reveal_strlit("suit");
    }
    assert(prefixes_rise_upto(1738)) by {
        reveal_strlit("suit");
        reveal_strlit("summer");
    }
    assert(prefixes_rise_upto(1739)) by {
        reveal_strlit("summer");
        reveal_strlit("sun");
    }
    assert(prefixes_rise_upto(1740)) by {
        reveal_strlit("sun");
        reveal_strlit("sunny");
    }
    assert(prefixes_rise_upto(1741)) by {
        reveal_strlit("sunny");
        reveal_strlit("sunset");
    }
    assert(prefixes_rise_upto(1742)) by {
        reveal_strlit("sunset");
        reveal_strlit("super");
    }
    assert(prefixes_rise_upto(1743)) by {
        reveal_strlit("super");
        reveal_strlit("supply");
    }
    assert(prefixes_rise_upto(1744)) by {
        reveal_strlit("supply");
        reveal_strlit("supreme");
    }
    assert(prefixes_rise_upto(1745)) by {
        reveal_strlit("supreme");
        reveal_strlit("sure");
    }
    assert(prefixes_rise_upto(1746)) by {
        reveal_strlit("sure");
        reveal_strlit("surface");
    }
    assert(prefixes_rise_upto(1747)) by {
        reveal_strlit("surface");
        reveal_strlit("surge");
    }
    assert(prefixes_rise_upto(1748)) by {
        reveal_strlit("surge");
        reveal_strlit("surprise");
    }
    assert(prefixes_rise_upto(1749)) by {
        reveal_strlit("surprise");
        reveal_strlit("surround");
    }
    assert(prefixes_rise_upto(1750)) by {
        reveal_strlit("surround");
        reveal_strlit("survey");
    }
    assert(prefixes_rise_upto(1751)) by {
        reveal_strlit("survey");
        reveal_strlit("suspect");
    }
    assert(prefixes_rise_upto(1752)) by {
        reveal_strlit("suspect");
        reveal_strlit("sustain");
    }
    assert(prefixes_rise_upto(1753)) by {
        reveal_strlit("sustain");
        reveal_strlit("swallow");
    }
    assert(prefixes_rise_upto(1754)) by {
        reveal_strlit("swallow");
        reveal_strlit("swamp");
    }
    assert(prefixes_rise_upto(1755)) by {
        reveal_strlit("swamp");
        reveal_strlit("swap");
    }
    assert(prefixes_rise_upto(1756)) by {
        reveal_strlit("swap");
        reveal_strlit("swarm");
    }
    assert(prefixes_rise_upto(1757)) by {
        reveal_strlit("swarm");
        reveal_strlit("swear");
    }
    assert(prefixes_rise_upto(1758)) by {
        reveal_strlit("swear");
        reveal_strlit("sweet");
    }
    assert(prefixes_rise_upto(1759)) by {
        reveal_strlit("sweet");
        reveal_strlit("swift");
    }
    assert(prefixes_rise_upto(1760)) by {
        reveal_strlit("swift");
        reveal_strlit("swim");
    }
}

#[verifier::rlimit(30)]
proof fn lemma_prefix_block_55()
    requires
        prefixes_rise_upto(1760),
    ensures
        prefixes_rise_upto(1792),
{
    assert(prefixes_rise_upto(1761)) by {
        reveal_strlit("swim");
        reveal_strlit("swing");
    }
    assert(prefixes_rise_upto(1762)) by {
        reveal_strlit("swing");
        reveal_strlit("switch");
    }
    assert(prefixes_rise_upto(1763)) by {
        reveal_strlit("switch");
        reveal_strlit("sword");
    }
    assert(prefixes_rise_upto(1764)) by {
        reveal_strlit("sword");
        reveal_strlit("symbol");
    }
    assert(prefixes_rise_upto(1765)) by {
        reveal_strlit("symbol");
        reveal_strlit("symptom");
    }
    assert(prefixes_rise_upto(1766)) by {
        reveal_strlit("symptom");
        reveal_strlit("syrup");
    }
    assert(prefixes_rise_upto(1767)) by {
        reveal_strlit("syrup");
        reveal_strlit("system");
    }
    assert(prefixes_rise_upto(1768)) by {
        reveal_strlit("system");
        reveal_strlit("table");
    }
    assert(prefixes_rise_upto(1769)) by {
        reveal_strlit("table");
        reveal_strlit("tackle");
    }
    assert(prefixes_rise_upto(1770)) by {
        reveal_strlit("tackle");
        reveal_strlit("tag");
    }
    assert(prefixes_rise_upto(1771)) by {
        reveal_strlit("tag");
        reveal_strlit("tail");
    }
    assert(prefixes_rise_upto(1772)) by {
        reveal_strlit("tail");
        reveal_strlit("talent");
    }
    assert(prefixes_rise_upto(1773)) by {
        reveal_strlit("talent");
        reveal_strlit("talk");
    }
    assert(prefixes_rise_upto(1774)) by {
        reveal_strlit("talk");
        reveal_strlit("tank");
    }
    assert(prefixes_rise_upto(1775)) by {
        reveal_strlit("tank");
        reveal_strlit("tape");
    }
    assert(prefixes_rise_upto(1776)) by {
        reveal_strlit("tape");
        reveal_strlit("target");
    }
    assert(prefixes_rise_upto(1777)) by {
        reveal_strlit("target");
        reveal_strlit("task");
    }
    assert(prefixes_rise_upto(1778)) by {
        reveal_strlit("task");
        reveal_strlit("taste");
    }
    assert(prefixes_rise_upto(1779)) by {
        reveal_strlit("taste");
        reveal_strlit("tattoo");
    }
    assert(prefixes_rise_upto(1780)) by {
        reveal_strlit("tattoo");
        reveal_strlit("taxi");
    }
    assert(prefixes_rise_upto(1781)) by {
        reveal_strlit("taxi");
        reveal_strlit("teach");
    }
    assert(prefixes_rise_upto(1782)) by {
        reveal_strlit("teach");
        reveal_strlit("team");
    }
    assert(prefixes_rise_upto(1783)) by {
        reveal_strlit("team");
        reveal_strlit("tell");
    }
    assert(prefixes_rise_upto(1784)) by {
        reveal_strlit("tell");
        reveal_strlit("ten");
    }
    assert(prefixes_rise_upto(1785)) by {
        reveal_strlit("ten");
        reveal_strlit("tenant");
    }
    assert(prefixes_rise_upto(1786)) by {
        reveal_strlit("tenant");
        reveal_strlit("tennis");
    }
    assert(prefixes_rise_upto(1787)) by {
        reveal_strlit("tennis");
        reveal_strlit("tent");
    }
    assert(prefixes_rise_upto(1788)) by {
        reveal_strlit("tent");
        reveal_strlit("term");
    }
    assert(prefixes_rise_upto(1789)) by {
        reveal_strlit("term");
        reveal_strlit("test");
    }
    assert(prefixes_rise_upto(1790)) by {
        reveal_strlit("test");
        reveal_strlit("text");
    }
    assert(prefixes_rise_upto(1791)) by {
        reveal_strlit("text");
        reveal_strlit("thank");
    }
    assert(prefixes_rise_upto(1792)) by {
        reveal_strlit("thank");
        reveal_strlit("that");
    }
}

#[verifier::rlimit(30)]
proof fn lemma_prefix_block_56()
    requires
        prefixes_rise_upto(1792),
    ensures
        prefixes_rise_upto(1824),
{
    assert(prefixes_rise_upto(1793)) by {
        reveal_strlit("that");
        reveal_strlit("theme");
    }
    assert(prefixes_rise_upto(1794)) by {
        reveal_strlit("theme");
        reveal_strlit("then");
    }
    assert(prefixes_rise_upto(1795)) by {
        reveal_strlit("then");
        reveal_strlit("theory");
    }
    assert(prefixes_rise_upto(1796)) by {
        reveal_strlit("theory");
        reveal_strlit("there");
    }
    assert(prefixes_rise_upto(1797)) by {
        reveal_strlit("there");
        reveal_strlit("they");
    }
    assert(prefixes_rise_upto(1798)) by {
        reveal_strlit("they");
        reveal_strlit("thing");
    }
    assert(prefixes_rise_upto(1799)) by {
        reveal_strlit("thing");
        reveal_strlit("this");
    }
    assert(prefixes_rise_upto(1800)) by {
        reveal_strlit("this");
        reveal_strlit("thought");
    }
    assert(prefixes_rise_upto(1801)) by {
        reveal_strlit("thought");
        reveal_strlit("three");
    }
    assert(prefixes_rise_upto(1802)) by {
        reveal_strlit("three");
        reveal_strlit("thrive");
    }
    assert(prefixes_rise_upto(1803)) by {
        reveal_strlit("thrive");
        reveal_strlit("throw");
    }
    assert(prefixes_rise_upto(1804)) by {
        reveal_strlit("throw");
        reveal_strlit("thumb");
    }
    assert(prefixes_rise_upto(1805)) by {
        reveal_strlit("thumb");
        reveal_strlit("thunder");
    }
    assert(prefixes_rise_upto(1806)) by {
        reveal_strlit("thunder");
        reveal_strlit("ticket");
    }
    assert(prefixes_rise_upto(1807)) by {
        reveal_strlit("ticket");
        reveal_strlit("tide");
    }
    assert(prefixes_rise_upto(1808)) by {
        reveal_strlit("tide");
        reveal_strlit("tiger");
    }
    assert(prefixes_rise_upto(1809)) by {
        reveal_strlit("tiger");
        reveal_strlit("tilt");
    }
    assert(prefixes_rise_upto(1810)) by {
        reveal_strlit("tilt");
        reveal_strlit("timber");
    }
    assert(prefixes_rise_upto(1811)) by {
        reveal_strlit("timber");
        reveal_strlit("time");
    }
    assert(prefixes_rise_upto(1812)) by {
        reveal_strlit("time");
        reveal_strlit("tiny");
    }
    assert(prefixes_rise_upto(1813)) by {
        reveal_strlit("tiny");
        reveal_strlit("tip");
    }
    assert(prefixes_rise_upto(1814)) by {
        reveal_strlit("tip");
        reveal_strlit("tired");
    }
    assert(prefixes_rise_upto(1815)) by {
        reveal_strlit("tired");
        reveal_strlit("tissue");
    }
    assert(prefixes_rise_upto(1816)) by {
        reveal_strlit("tissue");
        reveal_strlit("title");
    }
    assert(prefixes_rise_upto(1817)) by {
        reveal_strlit("title");
        reveal_strlit("toast");
    }
    assert(prefixes_rise_upto(1818)) by {
        reveal_strlit("toast");
        reveal_strlit("tobacco");
    }
    assert(prefixes_rise_upto(1819)) by {
        reveal_strlit("tobacco");
        reveal_strlit("today");
    }
    assert(prefixes_rise_upto(1820)) by {
        reveal_strlit("today");
        reveal_strlit("toddler");
    }
    assert(prefixes_rise_upto(1821)) by {
        reveal_strlit("toddler");
        reveal_strlit("toe");
    }
    assert(prefixes_rise_upto(1822)) by {
        reveal_strlit("toe");
        reveal_strlit("together");
    }
    assert(prefixes_rise_upto(1823)) by {
        reveal_strlit("together");
        reveal_strlit("toilet");
    }
    assert(prefixes_rise_upto(1824)) by {
        reveal_strlit("toilet");
        reveal_strlit("token");
    }
}

#[verifier::rlimit(30)]
proof fn lemma_prefix_block_57()
    requires
        prefixes_rise_upto(1824),
    ensures
        prefixes_rise_upto(1856),
{
    assert(prefixes_rise_upto(1825)) by {
        reveal_strlit("token");
        reveal_strlit("tomato");
    }
    assert(prefixes_rise_upto(1826)) by {
        reveal_strlit("tomato");
        reveal_strlit("tomorrow");
    }
    assert(prefixes_rise_upto(1827)) by {
        reveal_strlit("tomorrow");
        reveal_strlit("tone");
    }
    assert(prefixes_rise_upto(1828)) by {
        reveal_strlit("tone");
        reveal_strlit("tongue");
    }
    assert(prefixes_rise_upto(1829)) by {
        reveal_strlit("tongue");
        reveal_strlit("tonight");
    }
    assert(prefixes_rise_upto(1830)) by {
        reveal_strlit("tonight");
        reveal_strlit("tool");
    }
    assert(prefixes_rise_upto(1831)) by {
        reveal_strlit("tool");
        reveal_strlit("tooth");
    }
    assert(prefixes_rise_upto(1832)) by {
        reveal_strlit("tooth");
        reveal_strlit("top");
    }
    assert(prefixes_rise_upto(1833)) by {
        reveal_strlit("top");
        reveal_strlit("topic");
    }
    assert(prefixes_rise_upto(1834)) by {
        reveal_strlit("topic");
        reveal_strlit("topple");
    }
    assert(prefixes_rise_upto(1835)) by {
        reveal_strlit("topple");
        reveal_strlit("torch");
    }
    assert(prefixes_rise_upto(1836)) by {
        reveal_strlit("torch");
        reveal_strlit("tornado");
    }
    assert(prefixes_rise_upto(1837)) by {
        reveal_strlit("tornado");
        reveal_strlit("tortoise");
    }
    assert(prefixes_rise_upto(1838)) by {
        reveal_strlit("tortoise");
        reveal_strlit("toss");
    }
    assert(prefixes_rise_upto(1839)) by {
        reveal_strlit("toss");
        reveal_strlit("total");
    }
    assert(prefixes_rise_upto(1840)) by {
        reveal_strlit("total");
        reveal_strlit("tourist");
    }
    assert(prefixes_rise_upto(1841)) by {
        reveal_strlit("tourist");
        reveal_strlit("toward");
    }
    assert(prefixes_rise_upto(1842)) by {
        reveal_strlit("toward");
        reveal_strlit("tower");
    }
    assert(prefixes_rise_upto(1843)) by {
        reveal_strlit("tower");
        reveal_strlit("town");
    }
    assert(prefixes_rise_upto(1844)) by {
        reveal_strlit("town");
        reveal_strlit("toy");
    }
    assert(prefixes_rise_upto(1845)) by {
        reveal_strlit("toy");
        reveal_strlit("track");
    }
    assert(prefixes_rise_upto(1846)) by {
        reveal_strlit("track");
        reveal_strlit("trade");
    }
    assert(prefixes_rise_upto(1847)) by {
        reveal_strlit("trade");
        reveal_strlit("traffic");
    }
    assert(prefixes_rise_upto(1848)) by {
        reveal_strlit("traffic");
        reveal_strlit("tragic");
    }
    assert(prefixes_rise_upto(1849)) by {
        reveal_strlit("tragic");
        reveal_strlit("train");
    }
    assert(prefixes_rise_upto(1850)) by {
        reveal_strlit("train");
        reveal_strlit("transfer");
    }
    assert(prefixes_rise_upto(1851)) by {
        reveal_strlit("transfer");
        reveal_strlit("trap");
    }
    assert(prefixes_rise_upto(1852)) by {
        reveal_strlit("trap");
        reveal_strlit("trash");
    }
    assert(prefixes_rise_upto(1853)) by {
        reveal_strlit("trash");
        reveal_strlit("travel");
    }
    assert(prefixes_rise_upto(1854)) by {
        reveal_strlit("travel");
        reveal_strlit("tray");
    }
    assert(prefixes_rise_upto(1855)) by {
        reveal_strlit("tray");
        reveal_strlit("treat");
    }
    assert(prefixes_rise_upto(1856)) by {
        reveal_strlit("treat");
        reveal_strlit("tree");
    }
}

#[verifier::rlimit(30)]
proof fn lemma_prefix_block_58()
    requires
        prefixes_rise_upto(1856),
    ensures
        prefixes_rise_upto(1888),
{
    assert(prefixes_rise_upto(1857)) by {
        reveal_strlit("tree");
        reveal_strlit("trend");
    }
    assert(prefixes_rise_upto(1858)) by {
        reveal_strlit("trend");
        reveal_strlit("trial");
    }
    assert(prefixes_rise_upto(1859)) by {
        reveal_strlit("trial");
        reveal_strlit("tribe");
    }
    assert(prefixes_rise_upto(1860)) by {
        reveal_strlit("tribe");
        reveal_strlit("trick");
    }
    assert(prefixes_rise_upto(1861)) by {
        reveal_strlit("trick");
        reveal_strlit("trigger");
    }
    assert(prefixes_rise_upto(1862)) by {
        reveal_strlit("trigger");
        reveal_strlit("trim");
    }
    assert(prefixes_rise_upto(1863)) by {
        reveal_strlit("trim");
        reveal_strlit("trip");
    }
    assert(prefixes_rise_upto(1864)) by {
        reveal_strlit("trip");
        reveal_strlit("trophy");
    }
    assert(prefixes_rise_upto(1865)) by {
        reveal_strlit("trophy");
        reveal_strlit("trouble");
    }
    assert(prefixes_rise_upto(1866)) by {
        reveal_strlit("trouble");
        reveal_strlit("truck");
    }
    assert(prefixes_rise_upto(1867)) by {
        reveal_strlit("truck");
        reveal_strlit("true");
    }
    assert(prefixes_rise_upto(1868)) by {
        reveal_strlit("true");
        reveal_strlit("truly");
    }
    assert(prefixes_rise_upto(1869)) by {
        reveal_strlit("truly");
        reveal_strlit("trumpet");
    }
    assert(prefixes_rise_upto(1870)) by {
        reveal_strlit("trumpet");
        reveal_strlit("trust");
    }
    assert(prefixes_rise_upto(1871)) by {
        reveal_strlit("trust");
        reveal_strlit("truth");
    }
    assert(prefixes_rise_upto(1872)) by {
        reveal_strlit("truth");
        reveal_strlit("try");
    }
    assert(prefixes_rise_upto(1873)) by {
        reveal_strlit("try");
        reveal_strlit("tube");
    }
    assert(prefixes_rise_upto(1874)) by {
        reveal_strlit("tube");
        reveal_strlit("tuition");
    }
    assert(prefixes_rise_upto(1875)) by {
        reveal_strlit("tuition");
        reveal_strlit("tumble");
    }
    assert(prefixes_rise_upto(1876)) by {
        reveal_strlit("tumble");
        reveal_strlit("tuna");
    }
    assert(prefixes_rise_upto(1877)) by {
        reveal_strlit("tuna");
        reveal_strlit("tunnel");
    }
    assert(prefixes_rise_upto(1878)) by {
        reveal_strlit("tunnel");
        reveal_strlit("turkey");
    }
    assert(prefixes_rise_upto(1879)) by {
        reveal_strlit("turkey");
        reveal_strlit("turn");
    }
    assert(prefixes_rise_upto(1880)) by {
        reveal_strlit("turn");
        reveal_strlit("turtle");
    }
    assert(prefixes_rise_upto(1881)) by {
        reveal_strlit("turtle");
        reveal_strlit("twelve");
    }
    assert(prefixes_rise_upto(1882)) by {
        reveal_strlit("twelve");
        reveal_strlit("twenty");
    }
    assert(prefixes_rise_upto(1883)) by {
        reveal_strlit("twenty");
        reveal_strlit("twice");
    }
    assert(prefixes_rise_upto(1884)) by {
        reveal_strlit("twice");
        reveal_strlit("twin");
    }
    assert(prefixes_rise_upto(1885)) by {
        reveal_strlit("twin");
        reveal_strlit("twist");
    }
    assert(prefixes_rise_upto(1886)) by {
        reveal_strlit("twist");
        reveal_strlit("two");
    }
    assert(prefixes_rise_upto(1887)) by {
        reveal_strlit("two");
        reveal_strlit("type");
    }
    assert(prefixes_rise_upto(1888)) by {
        reveal_strlit("type");
        reveal_strlit("typical");
    }
}

#[verifier::rlimit(30)]
proof fn lemma_prefix_block_59()
    requires
        prefixes_rise_upto(1888),
    ensures
        prefixes_rise_upto(1920),
{
    assert(prefixes_rise_upto(1889)) by {
        reveal_strlit("typical");
        reveal_strlit("ugly");
    }
    assert(prefixes_rise_upto(1890)) by {
        reveal_strlit("ugly");
        reveal_strlit("umbrella");
    }
    assert(prefixes_rise_upto(1891)) by {
        reveal_strlit("umbrella");
        reveal_strlit("unable");
    }
    assert(prefixes_rise_upto(1892)) by {
        reveal_strlit("unable");
        reveal_strlit("unaware");
    }
    assert(prefixes_rise_upto(1893)) by {
        reveal_strlit("unaware");
        reveal_strlit("uncle");
    }
    assert(prefixes_rise_upto(1894)) by {
        reveal_strlit("uncle");
        reveal_strlit("uncover");
    }
    assert(prefixes_rise_upto(1895)) by {
        reveal_strlit("uncover");
        reveal_strlit("under");
    }
    assert(prefixes_rise_upto(1896)) by {
        reveal_strlit("under");
        reveal_strlit("undo");
    }
    assert(prefixes_rise_upto(1897)) by {
        reveal_strlit("undo");
        reveal_strlit("unfair");
    }
    assert(prefixes_rise_upto(1898)) by {
        reveal_strlit("unfair");
        reveal_strlit("unfold");
    }
    assert(prefixes_rise_upto(1899)) by {
        reveal_strlit("unfold");
        reveal_strlit("unhappy");
    }
    assert(prefixes_rise_upto(1900)) by {
        reveal_strlit("unhappy");
        reveal_strlit("uniform");
    }
    assert(prefixes_rise_upto(1901)) by {
        reveal_strlit("uniform");
        reveal_strlit("unique");
    }
    assert(prefixes_rise_upto(1902)) by {
        reveal_strlit("unique");
        reveal_strlit("unit");
    }
    assert(prefixes_rise_upto(1903)) by {
        reveal_strlit("unit");
        reveal_strlit("universe");
    }
    assert(prefixes_rise_upto(1904)) by {
        reveal_strlit("universe");
        reveal_strlit("unknown");
    }
    assert(prefixes_rise_upto(1905)) by {
        reveal_strlit("unknown");
        reveal_strlit("unlock");
    }
    assert(prefixes_rise_upto(1906)) by {
        reveal_strlit("unlock");
        reveal_strlit("until");
    }
    assert(prefixes_rise_upto(1907)) by {
        reveal_strlit("until");
        reveal_strlit("unusual");
    }
    assert(prefixes_rise_upto(1908)) by {
        reveal_strlit("unusual");
        reveal_strlit("unveil");
    }
    assert(prefixes_rise_upto(1909)) by {
        reveal_strlit("unveil");
        reveal_strlit("update");
    }
    assert(prefixes_rise_upto(1910)) by {
        reveal_strlit("update");
        reveal_strlit("upgrade");
    }
    assert(prefixes_rise_upto(1911)) by {
        reveal_strlit("upgrade");
        reveal_strlit("uphold");
    }
    assert(prefixes_rise_upto(1912)) by {
        reveal_strlit("uphold");
        reveal_strlit("upon");
    }
    assert(prefixes_rise_upto(1913)) by {
        reveal_strlit("upon");
        reveal_strlit("upper");
    }
    assert(prefixes_rise_upto(1914)) by {
        reveal_strlit("upper");
        reveal_strlit("upset");
    }
    assert(prefixes_rise_upto(1915)) by {
        reveal_strlit("upset");
        reveal_strlit("urban");
    }
    assert(prefixes_rise_upto(1916)) by {
        reveal_strlit("urban");
        reveal_strlit("urge");
    }
    assert(prefixes_rise_upto(1917)) by {
        reveal_strlit("urge");
        reveal_strlit("usage");
    }
    assert(prefixes_rise_upto(1918)) by {
        reveal_strlit("usage");
        reveal_strlit("use");
    }
    assert(prefixes_rise_upto(1919)) by {
        reveal_strlit("use");
        reveal_strlit("used");
    }
    assert(prefixes_rise_upto(1920)) by {
        reveal_strlit("used");
        reveal_strlit("useful");
    }
}

#[verifier::rlimit(30)]
proof fn lemma_prefix_block_60()
    requires
        prefixes_rise_upto(1920),
    ensures
        prefixes_rise_upto(1952),
{
    assert(prefixes_rise_upto(1921)) by {
        reveal_strlit("useful");
        reveal_strlit("useless");
    }
    assert(prefixes_rise_upto(1922)) by {
        reveal_strlit("useless");
        reveal_strlit("usual");
    }
    assert(prefixes_rise_upto(1923)) by {
        reveal_strlit("usual");
        reveal_strlit("utility");
    }
    assert(prefixes_rise_upto(1924)) by {
        reveal_strlit("utility");
        reveal_strlit("vacant");
    }
    assert(prefixes_rise_upto(1925)) by {
        reveal_strlit("vacant");
        reveal_strlit("vacuum");
    }
    assert(prefixes_rise_upto(1926)) by {
        reveal_strlit("vacuum");
        reveal_strlit("vague");
    }
    assert(prefixes_rise_upto(1927)) by {
        reveal_strlit("vague");
        reveal_strlit("valid");
    }
    assert(prefixes_rise_upto(1928)) by {
        reveal_strlit("valid");
        reveal_strlit("valley");
    }
    assert(prefixes_rise_upto(1929)) by {
        reveal_strlit("valley");
        reveal_strlit("valve");
    }
    assert(prefixes_rise_upto(1930)) by {
        reveal_strlit("valve");
        reveal_strlit("van");
    }
    assert(prefixes_rise_upto(1931)) by {
        reveal_strlit("van");
        reveal_strlit("vanish");
    }
    assert(prefixes_rise_upto(1932)) by {
        reveal_strlit("vanish");
        reveal_strlit("vapor");
    }
    assert(prefixes_rise_upto(1933)) by {
        reveal_strlit("vapor");
        reveal_strlit("various");
    }
    assert(prefixes_rise_upto(1934)) by {
        reveal_strlit("various");
        reveal_strlit("vast");
    }
    assert(prefixes_rise_upto(1935)) by {
        reveal_strlit("vast");
        reveal_strlit("vault");
    }
    assert(prefixes_rise_upto(1936)) by {
        reveal_strlit("vault");
        reveal_strlit("vehicle");
    }
    assert(prefixes_rise_upto(1937)) by {
        reveal_strlit("vehicle");
        reveal_strlit("velvet");
    }
    assert(prefixes_rise_upto(1938)) by {
        reveal_strlit("velvet");
        reveal_strlit("vendor");
    }
    assert(prefixes_rise_upto(1939)) by {
        reveal_strlit("vendor");
        reveal_strlit("venture");
    }
    assert(prefixes_rise_upto(1940)) by {
        reveal_strlit("venture");
        reveal_strlit("venue");
    }
    assert(prefixes_rise_upto(1941)) by {
        reveal_strlit("venue");
        reveal_strlit("verb");
    }
    assert(prefixes_rise_upto(1942)) by {
        reveal_strlit("verb");
        reveal_strlit("verify");
    }
    assert(prefixes_rise_upto(1943)) by {
        reveal_strlit("verify");
        reveal_strlit("version");
    }
    assert(prefixes_rise_upto(1944)) by {
        reveal_strlit("version");
        reveal_strlit("very");
    }
    assert(prefixes_rise_upto(1945)) by {
        reveal_strlit("very");
        reveal_strlit("vessel");
    }
    assert(prefixes_rise_upto(1946)) by {
        reveal_strlit("vessel");
        reveal_strlit("veteran");
    }
    assert(prefixes_rise_upto(1947)) by {
        reveal_strlit("veteran");
        reveal_strlit("viable");
    }
    assert(prefixes_rise_upto(1948)) by {
        reveal_strlit("viable");
        reveal_strlit("vibrant");
    }
    assert(prefixes_rise_upto(1949)) by {
        reveal_strlit("vibrant");
        reveal_strlit("vicious");
    }
    assert(prefixes_rise_upto(1950)) by {
        reveal_strlit("vicious");
        reveal_strlit("victory");
    }
    assert(prefixes_rise_upto(1951)) by {
        reveal_strlit("victory");
        reveal_strlit("video");
    }
    assert(prefixes_rise_upto(1952)) by {
        reveal_strlit("video");
        reveal_strlit("view");
    }
}

#[verifier::rlimit(30)]
proof fn lemma_prefix_block_61()
    requires
        prefixes_rise_upto(1952),
    ensures
        prefixes_rise_upto(1984),
{
    assert(prefixes_rise_upto(1953)) by {
        reveal_strlit("view");
        reveal_strlit("village");
    }
    assert(prefixes_rise_upto(1954)) by {
        reveal_strlit("village");
        reveal_strlit("vintage");
    }
    assert(prefixes_rise_upto(1955)) by {
        reveal_strlit("vintage");
        reveal_strlit("violin");
    }
    assert(prefixes_rise_upto(1956)) by {
        reveal_strlit("violin");
        reveal_strlit("virtual");
    }
    assert(prefixes_rise_upto(1957)) by {
        reveal_strlit("virtual");
        reveal_strlit("virus");
    }
    assert(prefixes_rise_upto(1958)) by {
        reveal_strlit("virus");
        reveal_strlit("visa");
    }
    assert(prefixes_rise_upto(1959)) by {
        reveal_strlit("visa");
        reveal_strlit("visit");
    }
    assert(prefixes_rise_upto(1960)) by {
        reveal_strlit("visit");
        reveal_strlit("visual");
    }
    assert(prefixes_rise_upto(1961)) by {
        reveal_strlit("visual");
        reveal_strlit("vital");
    }
    assert(prefixes_rise_upto(1962)) by {
        reveal_strlit("vital");
        reveal_strlit("vivid");
    }
    assert(prefixes_rise_upto(1963)) by {
        reveal_strlit("vivid");
        reveal_strlit("vocal");
    }
    assert(prefixes_rise_upto(1964)) by {
        reveal_strlit("vocal");
        reveal_strlit("voice");
    }
    assert(prefixes_rise_upto(1965)) by {
        reveal_strlit("voice");
        reveal_strlit("void");
    }
    assert(prefixes_rise_upto(1966)) by {
        reveal_strlit("void");
        reveal_strlit("volcano");
    }
    assert(prefixes_rise_upto(1967)) by {
        reveal_strlit("volcano");
        reveal_strlit("volume");
    }
    assert(prefixes_rise_upto(1968)) by {
        reveal_strlit("volume");
        reveal_strlit("vote");
    }
    assert(prefixes_rise_upto(1969)) by {
        reveal_strlit("vote");
        reveal_strlit("voyage");
    }
    assert(prefixes_rise_upto(1970)) by {
        reveal_strlit("voyage");
        reveal_strlit("wage");
    }
    assert(prefixes_rise_upto(1971)) by {
        reveal_strlit("wage");
        reveal_strlit("wagon");
    }
    assert(prefixes_rise_upto(1972)) by {
        reveal_strlit("wagon");
        reveal_strlit("wait");
    }
    assert(prefixes_rise_upto(1973)) by {
        reveal_strlit("wait");
        reveal_strlit("walk");
    }
    assert(prefixes_rise_upto(1974)) by {
        reveal_strlit("walk");
        reveal_strlit("wall");
    }
    assert(prefixes_rise_upto(1975)) by {
        reveal_strlit("wall");
        reveal_strlit("walnut");
    }
    assert(prefixes_rise_upto(1976)) by {
        reveal_strlit("walnut");
        reveal_strlit("want");
    }
    assert(prefixes_rise_upto(1977)) by {
        reveal_strlit("want");
        reveal_strlit("warfare");
    }
    assert(prefixes_rise_upto(1978)) by {
        reveal_strlit("warfare");
        reveal_strlit("warm");
    }
    assert(prefixes_rise_upto(1979)) by {
        reveal_strlit("warm");
        reveal_strlit("warrior");
    }
    assert(prefixes_rise_upto(1980)) by {
        reveal_strlit("warrior");
        reveal_strlit("wash");
    }
    assert(prefixes_rise_upto(1981)) by {
        reveal_strlit("wash");
        reveal_strlit("wasp");
    }
    assert(prefixes_rise_upto(1982)) by {
        reveal_strlit("wasp");
        reveal_strlit("waste");
    }
    assert(prefixes_rise_upto(1983)) by {
        reveal_strlit("waste");
        reveal_strlit("water");
    }
    assert(prefixes_rise_upto(1984)) by {
        reveal_strlit("water");
        reveal_strlit("wave");
    }
}

#[verifier::rlimit(30)]
proof fn lemma_prefix_block_62()
    requires
        prefixes_rise_upto(1984),
    ensures
        prefixes_rise_upto(2016),
{
    assert(prefixes_rise_upto(1985)) by {
        reveal_strlit("wave");
        reveal_strlit("way");
    }
    assert(prefixes_rise_upto(1986)) by {
        reveal_strlit("way");
        reveal_strlit("wealth");
    }
    assert(prefixes_rise_upto(1987)) by {
        reveal_strlit("wealth");
        reveal_strlit("weapon");
    }
    assert(prefixes_rise_upto(1988)) by {
        reveal_strlit("weapon");
        reveal_strlit("wear");
    }
    assert(prefixes_rise_upto(1989)) by {
        reveal_strlit("wear");
        reveal_strlit("weasel");
    }
    assert(prefixes_rise_upto(1990)) by {
        reveal_strlit("weasel");
        reveal_strlit("weather");
    }
    assert(prefixes_rise_upto(1991)) by {
        reveal_strlit("weather");
        reveal_strlit("web");
    }
    assert(prefixes_rise_upto(1992)) by {
        reveal_strlit("web");
        reveal_strlit("wedding");
    }
    assert(prefixes_rise_upto(1993)) by {
        reveal_strlit("wedding");
        reveal_strlit("weekend");
    }
    assert(prefixes_rise_upto(1994)) by {
        reveal_strlit("weekend");
        reveal_strlit("weird");
    }
    assert(prefixes_rise_upto(1995)) by {
        reveal_strlit("weird");
        reveal_strlit("welcome");
    }
    assert(prefixes_rise_upto(1996)) by {
        reveal_strlit("welcome");
        reveal_strlit("west");
    }
    assert(prefixes_rise_upto(1997)) by {
        reveal_strlit("west");
        reveal_strlit("wet");
    }
    assert(prefixes_rise_upto(1998)) by {
        reveal_strlit("wet");
        reveal_strlit("whale");
    }
    assert(prefixes_rise_upto(1999)) by {
        reveal_strlit("whale");
        reveal_strlit("what");
    }
    assert(prefixes_rise_upto(2000)) by {
        reveal_strlit("what");
        reveal_strlit("wheat");
    }
    assert(prefixes_rise_upto(2001)) by {
        reveal_strlit("wheat");
        reveal_strlit("wheel");
    }
    assert(prefixes_rise_upto(2002)) by {
        reveal_strlit("wheel");
        reveal_strlit("when");
    }
    assert(prefixes_rise_upto(2003)) by {
        reveal_strlit("when");
        reveal_strlit("where");
    }
    assert(prefixes_rise_upto(2004)) by {
        reveal_strlit("where");
        reveal_strlit("whip");
    }
    assert(prefixes_rise_upto(2005)) by {
        reveal_strlit("whip");
        reveal_strlit("whisper");
    }
    assert(prefixes_rise_upto(2006)) by {
        reveal_strlit("whisper");
        reveal_strlit("wide");
    }
    assert(prefixes_rise_upto(2007)) by {
        reveal_strlit("wide");
        reveal_strlit("width");
    }
    assert(prefixes_rise_upto(2008)) by {
        reveal_strlit("width");
        reveal_strlit("wife");
    }
    assert(prefixes_rise_upto(2009)) by {
        reveal_strlit("wife");
        reveal_strlit("wild");
    }
    assert(prefixes_rise_upto(2010)) by {
        reveal_strlit("wild");
        reveal_strlit("will");
    }
    assert(prefixes_rise_upto(2011)) by {
        reveal_strlit("will");
        reveal_strlit("win");
    }
    assert(prefixes_rise_upto(2012)) by {
        reveal_strlit("win");
        reveal_strlit("window");
    }
    assert(prefixes_rise_upto(2013)) by {
        reveal_strlit("window");
        reveal_strlit("wine");
    }
    assert(prefixes_rise_upto(2014)) by {
        reveal_strlit("wine");
        reveal_strlit("wing");
    }
    assert(prefixes_rise_upto(2015)) by {
        reveal_strlit("wing");
        reveal_strlit("wink");
    }
    assert(prefixes_rise_upto(2016)) by {
        reveal_strlit("wink");
        reveal_strlit("winner");
    }
}

#[verifier::rlimit(30)]
proof fn lemma_prefix_block_63()
    requires
        prefixes_rise_upto(2016),
    ensures
        prefixes_rise_upto(2048),
{
    assert(prefixes_rise_upto(2017)) by {
        reveal_strlit("winner");
        reveal_strlit("winter");
    }
    assert(prefixes_rise_upto(2018)) by {
        reveal_strlit("winter");
        reveal_strlit("wire");
    }
    assert(prefixes_rise_upto(2019)) by {
        reveal_strlit("wire");
        reveal_strlit("wisdom");
    }
    assert(prefixes_rise_upto(2020)) by {
        reveal_strlit("wisdom");
        reveal_strlit("wise");
    }
    assert(prefixes_rise_upto(2021)) by {
        reveal_strlit("wise");
        reveal_strlit("wish");
    }
    assert(prefixes_rise_upto(2022)) by {
        reveal_strlit("wish");
        reveal_strlit("witness");
    }
    assert(prefixes_rise_upto(2023)) by {
        reveal_strlit("witness");
        reveal_strlit("wolf");
    }
    assert(prefixes_rise_upto(2024)) by {
        reveal_strlit("wolf");
        reveal_strlit("woman");
    }
    assert(prefixes_rise_upto(2025)) by {
        reveal_strlit("woman");
        reveal_strlit("wonder");
    }
    assert(prefixes_rise_upto(2026)) by {
        reveal_strlit("wonder");
        reveal_strlit("wood");
    }
    assert(prefixes_rise_upto(2027)) by {
        reveal_strlit("wood");
        reveal_strlit("wool");
    }
    assert(prefixes_rise_upto(2028)) by {
        reveal_strlit("wool");
        reveal_strlit("word");
    }
    assert(prefixes_rise_upto(2029)) by {
        reveal_strlit("word");
        reveal_strlit("work");
    }
    assert(prefixes_rise_upto(2030)) by {
        reveal_strlit("work");
        reveal_strlit("world");
    }
    assert(prefixes_rise_upto(2031)) by {
        reveal_strlit("world");
        reveal_strlit("worry");
    }
    assert(prefixes_rise_upto(2032)) by {
        reveal_strlit("worry");
        reveal_strlit("worth");
    }
    assert(prefixes_rise_upto(2033)) by {
        reveal_strlit("worth");
        reveal_strlit("wrap");
    }
    assert(prefixes_rise_upto(2034)) by {
        reveal_strlit("wrap");
        reveal_strlit("wreck");
    }
    assert(prefixes_rise_upto(2035)) by {
        reveal_strlit("wreck");
        reveal_strlit("wrestle");
    }
    assert(prefixes_rise_upto(2036)) by {
        reveal_strlit("wrestle");
        reveal_strlit("wrist");
    }
    assert(prefixes_rise_upto(2037)) by {
        reveal_strlit("wrist");
        reveal_strlit("write");
    }
    assert(prefixes_rise_upto(2038)) by {
        reveal_strlit("write");
        reveal_strlit("wrong");
    }
    assert(prefixes_rise_upto(2039)) by {
        reveal_strlit("wrong");
        reveal_strlit("yard");
    }
    assert(prefixes_rise_upto(2040)) by {
        reveal_strlit("yard");
        reveal_strlit("year");
    }
    assert(prefixes_rise_upto(2041)) by {
        reveal_strlit("year");
        reveal_strlit("yellow");
    }
    assert(prefixes_rise_upto(2042)) by {
        reveal_strlit("yellow");
        reveal_strlit("you");
    }
    assert(prefixes_rise_upto(2043)) by {
        reveal_strlit("you");
        reveal_strlit("young");
    }
    assert(prefixes_rise_upto(2044)) by {
        reveal_strlit("young");
        reveal_strlit("youth");
    }
    assert(prefixes_rise_upto(2045)) by {
        reveal_strlit("youth");
        reveal_strlit("zebra");
    }
    assert(prefixes_rise_upto(2046)) by {
        reveal_strlit("zebra");
        reveal_strlit("zero");
    }
    assert(prefixes_rise_upto(2047)) by {
        reveal_strlit("zero");
        reveal_strlit("zone");
    }
    assert(prefixes_rise_upto(2048)) by {
        reveal_strlit("zone");
        reveal_strlit("zoo");
    }
}

/// Prefix keys rising from each entry to the next rise across the whole run.
proof fn lemma_prefixes_rise(n: int)
    requires
        0 <= n,
        prefixes_rise_upto(n),
    ensures
        forall|i: int, j: int|
            0 <= i < j < n ==> prefix_key(#[trigger] entry(i)) < prefix_key(#[trigger] entry(j)),
    decreases n,
{
    if n > 1 {
        lemma_prefixes_rise(n - 1);
        assert forall|i: int, j: int| 0 <= i < j < n implies prefix_key(#[trigger] entry(i))
            < prefix_key(#[trigger] entry(j)) by {
            if j == n - 1 && i < n - 2 {
                assert(prefix_key(entry(i)) < prefix_key(entry(n - 2)));
            }
        }
    }
}

/// Every entry has a larger prefix key than any entry before it.
pub proof fn lemma_prefix_keys_rise()
    ensures
        forall|i: int, j: int|
            0 <= i < j < 2048 ==> prefix_key(#[trigger] entry(i)) < prefix_key(#[trigger] entry(j)),
{
    lemma_all_prefixes_rise();
    lemma_prefixes_rise(2048);
}

/// Every entry has a larger prefix key than the one before it.
proof fn lemma_all_prefixes_rise()
    ensures
        prefixes_rise_upto(2048),
{
    lemma_prefix_block_0();
    lemma_prefix_block_1();
    lemma_prefix_block_2();
    lemma_prefix_block_3();
    lemma_prefix_block_4();
    lemma_prefix_block_5();
    lemma_prefix_block_6();
    lemma_prefix_block_7();
    lemma_prefix_block_8();
    lemma_prefix_block_9();
    lemma_prefix_block_10();
    lemma_prefix_block_11();
    lemma_prefix_block_12();
    lemma_prefix_block_13();
    lemma_prefix_block_14();
    lemma_prefix_block_15();
    lemma_prefix_block_16();
    lemma_prefix_block_17();
    lemma_prefix_block_18();
    lemma_prefix_block_19();
    lemma_prefix_block_20();
    lemma_prefix_block_21();
    lemma_prefix_block_22();
    lemma_prefix_block_23();
    lemma_prefix_block_24();
    lemma_prefix_block_25();
    lemma_prefix_block_26();
    lemma_prefix_block_27();
    lemma_prefix_block_28();
    lemma_prefix_block_29();
    lemma_prefix_block_30();
    lemma_prefix_block_31();
    lemma_prefix_block_32();
    lemma_prefix_block_33();
    lemma_prefix_block_34();
    lemma_prefix_block_35();
    lemma_prefix_block_36();
    lemma_prefix_block_37();
    lemma_prefix_block_38();
    lemma_prefix_block_39();
    lemma_prefix_block_40();
    lemma_prefix_block_41();
    lemma_prefix_block_42();
    lemma_prefix_block_43();
    lemma_prefix_block_44();
    lemma_prefix_block_45();
    lemma_prefix_block_46();
    lemma_prefix_block_47();
    lemma_prefix_block_48();
    lemma_prefix_block_49();
    lemma_prefix_block_50();
    lemma_prefix_block_51();
    lemma_prefix_block_52();
    lemma_prefix_block_53();
    lemma_prefix_block_54();
    lemma_prefix_block_55();
    lemma_prefix_block_56();
    lemma_prefix_block_57();
    lemma_prefix_block_58();
    lemma_prefix_block_59();
    lemma_prefix_block_60();
    lemma_prefix_block_61();
    lemma_prefix_block_62();
    lemma_prefix_block_63();
}

} // verus!
