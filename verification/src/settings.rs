//! The settings-file codec.
//!
//! A settings record is written as a line-oriented text document: one
//! `keyword` per field followed by a length-prefixed string (`3:abc`), `-`
//! for an absent optional field, and the two bookmark lists as a category
//! count followed by that many `category` blocks, each carrying its own item
//! count. Length prefixes make the format self-delimiting, so field values
//! may contain any character.
//!
//! The parser accepts exactly this shape and is proved to read back every
//! encoded record unchanged (`lemma_settings_round_trip`).

use vstd::prelude::*;
use vstd::string::*;

use crate::config::{
    AppConfig, AppConfigView, Bookmark, BookmarkCategory, BookmarkCategoryView, BookmarkView,
    Bookmarks, BookmarksView,
};
use crate::text::{
    all_digits, chars_to_string, dec_digits, digit_val, digits_val, is_digit,
    lemma_dec_digits_val, lemma_digits_val_front, lemma_pow10_pos, pow10, push_nat,
    push_str_chars,
};

verus! {

// ---------------------------------------------------------------------------
// The written shape of a record
// ---------------------------------------------------------------------------
/// A string as written: its length, a colon, then its characters.
pub open spec fn spec_lenstr(s: Seq<char>) -> Seq<char> {
    dec_digits(s.len()) + seq![':'] + s
}

/// A required field as written: keyword (with its trailing space), the value
/// as a length-prefixed string, then a newline.
pub open spec fn spec_field(k: Seq<char>, s: Seq<char>) -> Seq<char> {
    k + spec_lenstr(s) + seq!['\n']
}

/// An optional field as written: `-` for an absent value.
pub open spec fn spec_opt_field(k: Seq<char>, o: Option<Seq<char>>) -> Seq<char> {
    match o {
        Some(s) => spec_field(k, s),
        None => k + seq!['-', '\n'],
    }
}

/// One bookmark as written.
pub open spec fn spec_item(b: BookmarkView) -> Seq<char> {
    "bookmark "@ + spec_lenstr(b.name) + seq![' '] + spec_lenstr(b.url) + seq!['\n']
}

/// A run of bookmarks as written.
pub open spec fn spec_items(items: Seq<BookmarkView>) -> Seq<char>
    decreases items.len(),
{
    if items.len() == 0 {
        Seq::empty()
    } else {
        spec_item(items[0]) + spec_items(items.drop_first())
    }
}

/// One category as written: its name, its item count, then its items.
pub open spec fn spec_cat(c: BookmarkCategoryView) -> Seq<char> {
    "category "@ + spec_lenstr(c.name) + seq![' '] + dec_digits(c.items.len()) + seq!['\n']
        + spec_items(c.items)
}

/// A run of categories as written.
pub open spec fn spec_cats(cats: Seq<BookmarkCategoryView>) -> Seq<char>
    decreases cats.len(),
{
    if cats.len() == 0 {
        Seq::empty()
    } else {
        spec_cat(cats[0]) + spec_cats(cats.drop_first())
    }
}

/// A bookmark list as written: keyword, category count, then the categories.
pub open spec fn spec_list(k: Seq<char>, cats: Seq<BookmarkCategoryView>) -> Seq<char> {
    k + dec_digits(cats.len()) + seq!['\n'] + spec_cats(cats)
}

/// A whole settings record as written.
pub open spec fn spec_encode_settings(v: AppConfigView) -> Seq<char> {
    spec_field("user_name "@, v.user_name) + spec_field("weather_api_key "@, v.weather_api_key)
        + spec_field("location "@, v.location) + spec_field("country_code "@, v.country_code)
        + spec_opt_field("notion_api_key "@, v.notion_api_key) + spec_opt_field(
        "notion_database_id "@,
        v.notion_database_id,
    ) + spec_list("desktop "@, v.bookmarks.desktop) + spec_list("web "@, v.bookmarks.web)
}

// ---------------------------------------------------------------------------
// Size bounds under which a record can be written at all
// ---------------------------------------------------------------------------
/// Whether one bookmark's strings have writable lengths.
pub open spec fn bookmark_encodable(b: BookmarkView) -> bool {
    b.name.len() <= u64::MAX && b.url.len() <= u64::MAX
}

/// Whether one category and everything in it has writable lengths.
pub open spec fn cat_encodable(c: BookmarkCategoryView) -> bool {
    &&& c.name.len() <= u64::MAX
    &&& c.items.len() <= u64::MAX
    &&& forall|i: int| 0 <= i < c.items.len() ==> bookmark_encodable(#[trigger] c.items[i])
}

/// Whether a category list and everything in it has writable lengths.
pub open spec fn cats_encodable(cats: Seq<BookmarkCategoryView>) -> bool {
    &&& cats.len() <= u64::MAX
    &&& forall|i: int| 0 <= i < cats.len() ==> cat_encodable(#[trigger] cats[i])
}

/// Whether a settings record has writable lengths everywhere. Every record
/// actually held in memory does.
pub open spec fn config_encodable(v: AppConfigView) -> bool {
    &&& v.user_name.len() <= u64::MAX
    &&& v.weather_api_key.len() <= u64::MAX
    &&& v.location.len() <= u64::MAX
    &&& v.country_code.len() <= u64::MAX
    &&& (v.notion_api_key matches Some(s) ==> s.len() <= u64::MAX)
    &&& (v.notion_database_id matches Some(s) ==> s.len() <= u64::MAX)
    &&& cats_encodable(v.bookmarks.desktop)
    &&& cats_encodable(v.bookmarks.web)
}

// ---------------------------------------------------------------------------
// The grammar, as parsing functions on the remaining input
// ---------------------------------------------------------------------------
/// Greedily reads further digits onto an already-read value; fails when the
/// value would not fit a `u64`.
pub open spec fn sp_nat_loop(t: Seq<char>, acc: u64) -> Option<(u64, Seq<char>)>
    decreases t.len(),
{
    if t.len() > 0 && is_digit(t[0]) {
        if acc * 10 + digit_val(t[0]) <= u64::MAX {
            sp_nat_loop(t.drop_first(), (acc * 10 + digit_val(t[0])) as u64)
        } else {
            None
        }
    } else {
        Some((acc, t))
    }
}

/// Reads a number: one or more digits, greedily.
pub open spec fn sp_nat(t: Seq<char>) -> Option<(u64, Seq<char>)> {
    if t.len() > 0 && is_digit(t[0]) {
        sp_nat_loop(t, 0)
    } else {
        None
    }
}

/// Reads exactly `n` characters.
pub open spec fn sp_take(t: Seq<char>, n: u64) -> Option<(Seq<char>, Seq<char>)> {
    if n <= t.len() {
        Some((t.take(n as int), t.skip(n as int)))
    } else {
        None
    }
}

/// Reads the exact characters of `lit`.
pub open spec fn sp_expect(t: Seq<char>, lit: Seq<char>) -> Option<Seq<char>> {
    if lit.len() <= t.len() && t.take(lit.len() as int) == lit {
        Some(t.skip(lit.len() as int))
    } else {
        None
    }
}

/// Reads a length-prefixed string.
pub open spec fn sp_lenstr(t: Seq<char>) -> Option<(Seq<char>, Seq<char>)> {
    match sp_nat(t) {
        Some((n, t1)) => match sp_expect(t1, seq![':']) {
            Some(t2) => sp_take(t2, n),
            None => None,
        },
        None => None,
    }
}

/// Reads a required field.
pub open spec fn sp_field(t: Seq<char>, k: Seq<char>) -> Option<(Seq<char>, Seq<char>)> {
    match sp_expect(t, k) {
        Some(t1) => match sp_lenstr(t1) {
            Some((s, t2)) => match sp_expect(t2, seq!['\n']) {
                Some(t3) => Some((s, t3)),
                None => None,
            },
            None => None,
        },
        None => None,
    }
}

/// Reads an optional field: `-` marks an absent value.
pub open spec fn sp_opt_field(t: Seq<char>, k: Seq<char>) -> Option<
    (Option<Seq<char>>, Seq<char>),
> {
    match sp_expect(t, k) {
        Some(t1) => if t1.len() > 0 && t1[0] == '-' {
            match sp_expect(t1, seq!['-', '\n']) {
                Some(t2) => Some((None, t2)),
                None => None,
            }
        } else {
            match sp_lenstr(t1) {
                Some((s, t2)) => match sp_expect(t2, seq!['\n']) {
                    Some(t3) => Some((Some(s), t3)),
                    None => None,
                },
                None => None,
            }
        },
        None => None,
    }
}

/// Reads one bookmark line.
pub open spec fn sp_item(t: Seq<char>) -> Option<(BookmarkView, Seq<char>)> {
    match sp_expect(t, "bookmark "@) {
        Some(t1) => match sp_lenstr(t1) {
            Some((name, t2)) => match sp_expect(t2, seq![' ']) {
                Some(t3) => match sp_lenstr(t3) {
                    Some((url, t4)) => match sp_expect(t4, seq!['\n']) {
                        Some(t5) => Some((BookmarkView { name, url }, t5)),
                        None => None,
                    },
                    None => None,
                },
                None => None,
            },
            None => None,
        },
        None => None,
    }
}

/// Reads exactly `n` bookmark lines.
pub open spec fn sp_items(t: Seq<char>, n: u64) -> Option<(Seq<BookmarkView>, Seq<char>)>
    decreases n,
{
    if n == 0 {
        Some((Seq::empty(), t))
    } else {
        match sp_item(t) {
            Some((b, t1)) => match sp_items(t1, (n - 1) as u64) {
                Some((bs, t2)) => Some((seq![b] + bs, t2)),
                None => None,
            },
            None => None,
        }
    }
}

/// Reads one category block.
pub open spec fn sp_cat(t: Seq<char>) -> Option<(BookmarkCategoryView, Seq<char>)> {
    match sp_expect(t, "category "@) {
        Some(t1) => match sp_lenstr(t1) {
            Some((name, t2)) => match sp_expect(t2, seq![' ']) {
                Some(t3) => match sp_nat(t3) {
                    Some((n, t4)) => match sp_expect(t4, seq!['\n']) {
                        Some(t5) => match sp_items(t5, n) {
                            Some((items, t6)) => Some((BookmarkCategoryView { name, items }, t6)),
                            None => None,
                        },
                        None => None,
                    },
                    None => None,
                },
                None => None,
            },
            None => None,
        },
        None => None,
    }
}

/// Reads exactly `n` category blocks.
pub open spec fn sp_cats(t: Seq<char>, n: u64) -> Option<(Seq<BookmarkCategoryView>, Seq<char>)>
    decreases n,
{
    if n == 0 {
        Some((Seq::empty(), t))
    } else {
        match sp_cat(t) {
            Some((c, t1)) => match sp_cats(t1, (n - 1) as u64) {
                Some((cs, t2)) => Some((seq![c] + cs, t2)),
                None => None,
            },
            None => None,
        }
    }
}

/// Reads a bookmark list: keyword, category count, categories.
pub open spec fn sp_list(t: Seq<char>, k: Seq<char>) -> Option<
    (Seq<BookmarkCategoryView>, Seq<char>),
> {
    match sp_expect(t, k) {
        Some(t1) => match sp_nat(t1) {
            Some((n, t2)) => match sp_expect(t2, seq!['\n']) {
                Some(t3) => sp_cats(t3, n),
                None => None,
            },
            None => None,
        },
        None => None,
    }
}

/// Reads a whole settings record; the document must end with it.
pub open spec fn sp_settings(t: Seq<char>) -> Option<AppConfigView> {
    match sp_field(t, "user_name "@) {
        Some((user_name, t1)) => match sp_field(t1, "weather_api_key "@) {
            Some((weather_api_key, t2)) => match sp_field(t2, "location "@) {
                Some((location, t3)) => match sp_field(t3, "country_code "@) {
                    Some((country_code, t4)) => match sp_opt_field(t4, "notion_api_key "@) {
                        Some((notion_api_key, t5)) => match sp_opt_field(
                            t5,
                            "notion_database_id "@,
                        ) {
                            Some((notion_database_id, t6)) => match sp_list(t6, "desktop "@) {
                                Some((desktop, t7)) => match sp_list(t7, "web "@) {
                                    Some((web, t8)) => if t8.len() == 0 {
                                        Some(
                                            AppConfigView {
                                                user_name,
                                                weather_api_key,
                                                location,
                                                country_code,
                                                bookmarks: BookmarksView { desktop, web },
                                                notion_api_key,
                                                notion_database_id,
                                            },
                                        )
                                    } else {
                                        None
                                    },
                                    None => None,
                                },
                                None => None,
                            },
                            None => None,
                        },
                        None => None,
                    },
                    None => None,
                },
                None => None,
            },
            None => None,
        },
        None => None,
    }
}

// ---------------------------------------------------------------------------
// The parser reads back exactly what the encoder writes
// ---------------------------------------------------------------------------
proof fn lemma_sp_nat_loop(ds: Seq<char>, rest: Seq<char>, acc: u64)
    requires
        all_digits(ds),
        rest.len() == 0 || !is_digit(rest[0]),
        acc * pow10(ds.len()) + digits_val(ds) <= u64::MAX,
    ensures
        sp_nat_loop(ds + rest, acc) == Some(
            (((acc * pow10(ds.len()) + digits_val(ds)) as u64, rest)),
        ),
    decreases ds.len(),
{
    lemma_pow10_pos(ds.len());
    if ds.len() == 0 {
        assert(ds + rest =~= rest);
        assert(pow10(0) == 1);
        assert(digits_val(ds) == 0);
        assert(sp_nat_loop(rest, acc) == Some((acc, rest)));
        assert(pow10(ds.len()) == 1);
        assert(acc * pow10(ds.len()) == acc) by (nonlinear_arith)
            requires
                pow10(ds.len()) == 1,
        ;
        assert((acc * pow10(ds.len()) + digits_val(ds)) as u64 == acc);
    } else {
        let t = ds + rest;
        assert(t[0] == ds[0]);
        assert(is_digit(t[0]));
        lemma_digits_val_front(ds);
        let d0 = digit_val(ds[0]);
        let k = (ds.len() - 1) as nat;
        assert(pow10(ds.len()) == 10 * pow10(k));
        let acc2 = acc * 10 + d0;
        lemma_pow10_pos(k);
        assert(acc * (10 * pow10(k)) == (acc * 10) * pow10(k)) by (nonlinear_arith);
        assert((acc * 10) * pow10(k) + d0 * pow10(k) == (acc * 10 + d0) * pow10(k))
            by (nonlinear_arith);
        assert(acc2 * pow10(k) + digits_val(ds.drop_first()) == acc * pow10(ds.len())
            + digits_val(ds));
        assert(acc2 * pow10(k) + digits_val(ds.drop_first()) <= u64::MAX);
        assert(acc2 <= acc2 * pow10(k)) by (nonlinear_arith)
            requires
                pow10(k) >= 1,
                acc2 >= 0,
        ;
        assert(acc2 <= u64::MAX);
        assert(t.drop_first() =~= ds.drop_first() + rest);
        assert forall|i: int| 0 <= i < ds.drop_first().len() implies is_digit(
            #[trigger] ds.drop_first()[i],
        ) by {
            assert(ds.drop_first()[i] == ds[i + 1]);
        }
        lemma_sp_nat_loop(ds.drop_first(), rest, acc2 as u64);
        assert(sp_nat_loop(t.drop_first(), acc2 as u64) == Some(
            (((acc2 * pow10(k) + digits_val(ds.drop_first())) as u64, rest)),
        ));
        assert(digit_val(t[0]) == d0);
        assert(acc * 10 + digit_val(t[0]) <= u64::MAX);
        assert(sp_nat_loop(t, acc) == sp_nat_loop(t.drop_first(), acc2 as u64));
    }
}

/// A written number followed by anything that is not a digit reads back as
/// itself.
proof fn lemma_sp_nat(n: u64, rest: Seq<char>)
    requires
        rest.len() == 0 || !is_digit(rest[0]),
    ensures
        sp_nat(dec_digits(n as nat) + rest) == Some((n, rest)),
{
    lemma_dec_digits_val(n as nat);
    let ds = dec_digits(n as nat);
    assert((ds + rest)[0] == ds[0]);
    assert(is_digit(ds[0]));
    assert(0 * pow10(ds.len()) == 0) by (nonlinear_arith);
    lemma_sp_nat_loop(ds, rest, 0);
}

proof fn lemma_sp_expect(lit: Seq<char>, rest: Seq<char>)
    ensures
        sp_expect(lit + rest, lit) == Some(rest),
{
    assert((lit + rest).take(lit.len() as int) =~= lit);
    assert((lit + rest).skip(lit.len() as int) =~= rest);
}

proof fn lemma_sp_take(s: Seq<char>, rest: Seq<char>)
    requires
        s.len() <= u64::MAX,
    ensures
        sp_take(s + rest, s.len() as u64) == Some((s, rest)),
{
    assert((s + rest).take(s.len() as int) =~= s);
    assert((s + rest).skip(s.len() as int) =~= rest);
}

proof fn lemma_sp_lenstr(s: Seq<char>, rest: Seq<char>)
    requires
        s.len() <= u64::MAX,
    ensures
        sp_lenstr(spec_lenstr(s) + rest) == Some((s, rest)),
{
    let n = s.len() as u64;
    let tail = seq![':'] + (s + rest);
    assert(spec_lenstr(s) + rest =~= dec_digits(s.len()) + tail);
    assert(tail[0] == ':');
    assert(!is_digit(tail[0]));
    lemma_sp_nat(n, tail);
    lemma_sp_expect(seq![':'], s + rest);
    lemma_sp_take(s, rest);
}

proof fn lemma_sp_field(k: Seq<char>, s: Seq<char>, rest: Seq<char>)
    requires
        s.len() <= u64::MAX,
    ensures
        sp_field(spec_field(k, s) + rest, k) == Some((s, rest)),
{
    let after_k = spec_lenstr(s) + (seq!['\n'] + rest);
    assert(spec_field(k, s) + rest =~= k + after_k);
    lemma_sp_expect(k, after_k);
    lemma_sp_lenstr(s, seq!['\n'] + rest);
    lemma_sp_expect(seq!['\n'], rest);
}

proof fn lemma_sp_opt_field(k: Seq<char>, o: Option<Seq<char>>, rest: Seq<char>)
    requires
        o matches Some(s) ==> s.len() <= u64::MAX,
    ensures
        sp_opt_field(spec_opt_field(k, o) + rest, k) == Some((o, rest)),
{
    match o {
        None => {
            let after_k = seq!['-', '\n'] + rest;
            assert(spec_opt_field(k, o) + rest =~= k + after_k);
            lemma_sp_expect(k, after_k);
            assert(after_k[0] == '-');
            lemma_sp_expect(seq!['-', '\n'], rest);
        },
        Some(s) => {
            let after_k = spec_lenstr(s) + (seq!['\n'] + rest);
            assert(spec_opt_field(k, o) + rest =~= k + after_k);
            lemma_sp_expect(k, after_k);
            lemma_dec_digits_val(s.len());
            assert(after_k[0] == dec_digits(s.len())[0]);
            assert(is_digit(after_k[0]));
            assert(after_k[0] != '-');
            lemma_sp_lenstr(s, seq!['\n'] + rest);
            lemma_sp_expect(seq!['\n'], rest);
        },
    }
}

proof fn lemma_sp_item(b: BookmarkView, rest: Seq<char>)
    requires
        bookmark_encodable(b),
    ensures
        sp_item(spec_item(b) + rest) == Some((b, rest)),
{
    let t4 = seq!['\n'] + rest;
    let t3 = spec_lenstr(b.url) + t4;
    let t2 = seq![' '] + t3;
    let t1 = spec_lenstr(b.name) + t2;
    assert(spec_item(b) + rest =~= "bookmark "@ + t1);
    lemma_sp_expect("bookmark "@, t1);
    lemma_sp_lenstr(b.name, t2);
    lemma_sp_expect(seq![' '], t3);
    lemma_sp_lenstr(b.url, t4);
    lemma_sp_expect(seq!['\n'], rest);
}

proof fn lemma_sp_items(items: Seq<BookmarkView>, rest: Seq<char>)
    requires
        items.len() <= u64::MAX,
        forall|i: int| 0 <= i < items.len() ==> bookmark_encodable(#[trigger] items[i]),
    ensures
        sp_items(spec_items(items) + rest, items.len() as u64) == Some((items, rest)),
    decreases items.len(),
{
    if items.len() == 0 {
        assert(spec_items(items) + rest =~= rest);
        assert(items =~= Seq::<BookmarkView>::empty());
    } else {
        let head = items[0];
        let tail = items.drop_first();
        assert(spec_items(items) + rest =~= spec_item(head) + (spec_items(tail) + rest));
        lemma_sp_item(head, spec_items(tail) + rest);
        assert(forall|i: int|
            0 <= i < tail.len() ==> bookmark_encodable(#[trigger] tail[i]) && tail[i] == items[i
                + 1]);
        lemma_sp_items(tail, rest);
        assert(seq![head] + tail =~= items);
    }
}

proof fn lemma_sp_cat(c: BookmarkCategoryView, rest: Seq<char>)
    requires
        cat_encodable(c),
    ensures
        sp_cat(spec_cat(c) + rest) == Some((c, rest)),
{
    let t5 = spec_items(c.items) + rest;
    let t4 = seq!['\n'] + t5;
    let t3 = dec_digits(c.items.len()) + t4;
    let t2 = seq![' '] + t3;
    let t1 = spec_lenstr(c.name) + t2;
    assert(spec_cat(c) + rest =~= "category "@ + t1);
    lemma_sp_expect("category "@, t1);
    lemma_sp_lenstr(c.name, t2);
    lemma_sp_expect(seq![' '], t3);
    assert(t4[0] == '\n');
    assert(!is_digit(t4[0]));
    lemma_sp_nat(c.items.len() as u64, t4);
    lemma_sp_expect(seq!['\n'], t5);
    lemma_sp_items(c.items, rest);
}

proof fn lemma_sp_cats(cats: Seq<BookmarkCategoryView>, rest: Seq<char>)
    requires
        cats_encodable(cats),
    ensures
        sp_cats(spec_cats(cats) + rest, cats.len() as u64) == Some((cats, rest)),
    decreases cats.len(),
{
    if cats.len() == 0 {
        assert(spec_cats(cats) + rest =~= rest);
        assert(cats =~= Seq::<BookmarkCategoryView>::empty());
    } else {
        let head = cats[0];
        let tail = cats.drop_first();
        assert(spec_cats(cats) + rest =~= spec_cat(head) + (spec_cats(tail) + rest));
        lemma_sp_cat(head, spec_cats(tail) + rest);
        assert(forall|i: int|
            0 <= i < tail.len() ==> cat_encodable(#[trigger] tail[i]) && tail[i] == cats[i + 1]);
        lemma_sp_cats(tail, rest);
        assert(seq![head] + tail =~= cats);
    }
}

proof fn lemma_sp_list(k: Seq<char>, cats: Seq<BookmarkCategoryView>, rest: Seq<char>)
    requires
        cats_encodable(cats),
    ensures
        sp_list(spec_list(k, cats) + rest, k) == Some((cats, rest)),
{
    let t3 = spec_cats(cats) + rest;
    let t2 = seq!['\n'] + t3;
    let t1 = dec_digits(cats.len()) + t2;
    assert(spec_list(k, cats) + rest =~= k + t1);
    lemma_sp_expect(k, t1);
    assert(t2[0] == '\n');
    assert(!is_digit(t2[0]));
    lemma_sp_nat(cats.len() as u64, t2);
    lemma_sp_expect(seq!['\n'], t3);
    lemma_sp_cats(cats, rest);
}

/// Law: a settings record written to storage and read back is equal in every
/// field — parsing inverts encoding on every record that can be written.
pub proof fn lemma_settings_round_trip(v: AppConfigView)
    requires
        config_encodable(v),
    ensures
        sp_settings(spec_encode_settings(v)) == Some(v),
{
    let s8 = spec_list("web "@, v.bookmarks.web);
    let s7 = spec_list("desktop "@, v.bookmarks.desktop) + s8;
    let s6 = spec_opt_field("notion_database_id "@, v.notion_database_id) + s7;
    let s5 = spec_opt_field("notion_api_key "@, v.notion_api_key) + s6;
    let s4 = spec_field("country_code "@, v.country_code) + s5;
    let s3 = spec_field("location "@, v.location) + s4;
    let s2 = spec_field("weather_api_key "@, v.weather_api_key) + s3;
    let s1 = spec_field("user_name "@, v.user_name) + s2;
    assert(spec_encode_settings(v) =~= s1);
    lemma_sp_field("user_name "@, v.user_name, s2);
    lemma_sp_field("weather_api_key "@, v.weather_api_key, s3);
    lemma_sp_field("location "@, v.location, s4);
    lemma_sp_field("country_code "@, v.country_code, s5);
    lemma_sp_opt_field("notion_api_key "@, v.notion_api_key, s6);
    lemma_sp_opt_field("notion_database_id "@, v.notion_database_id, s7);
    assert(s8 =~= spec_list("web "@, v.bookmarks.web) + Seq::<char>::empty());
    lemma_sp_list("desktop "@, v.bookmarks.desktop, s8);
    lemma_sp_list("web "@, v.bookmarks.web, Seq::empty());
    assert(sp_settings(spec_encode_settings(v)) matches Some(parsed) && parsed =~~= v);
}

// ---------------------------------------------------------------------------
// Writing a record
// ---------------------------------------------------------------------------
/// The views of a bookmark sequence.
pub open spec fn bm_views(s: Seq<Bookmark>) -> Seq<BookmarkView> {
    s.map_values(|b: Bookmark| b@)
}

/// The views of a category sequence.
pub open spec fn cat_views(s: Seq<BookmarkCategory>) -> Seq<BookmarkCategoryView> {
    s.map_values(|c: BookmarkCategory| c@)
}

/// Appends a length-prefixed string.
fn push_lenstr(out: &mut Vec<char>, s: &str)
    ensures
        final(out)@ == old(out)@ + spec_lenstr(s@),
{
    let n = s.unicode_len();
    push_nat(out, n as u64);
    out.push(':');
    push_str_chars(out, s);
    assert(out@ =~= old(out)@ + spec_lenstr(s@));
}

/// Appends a required field line.
fn push_field(out: &mut Vec<char>, k: &str, s: &str)
    ensures
        final(out)@ == old(out)@ + spec_field(k@, s@),
{
    push_str_chars(out, k);
    push_lenstr(out, s);
    out.push('\n');
    assert(out@ =~= old(out)@ + spec_field(k@, s@));
}

/// Appends an optional field line.
fn push_opt_field(out: &mut Vec<char>, k: &str, o: &Option<String>)
    ensures
        final(out)@ == old(out)@ + spec_opt_field(
            k@,
            match o {
                Some(s) => Some(s@),
                None => None,
            },
        ),
{
    match o {
        Some(s) => {
            push_field(out, k, s.as_str());
        },
        None => {
            push_str_chars(out, k);
            out.push('-');
            out.push('\n');
            assert(out@ =~= old(out)@ + (k@ + seq!['-', '\n']));
        },
    }
}

/// Appends one bookmark line.
fn push_item(out: &mut Vec<char>, b: &Bookmark)
    ensures
        final(out)@ == old(out)@ + spec_item(b@),
{
    push_str_chars(out, "bookmark ");
    push_lenstr(out, b.name.as_str());
    out.push(' ');
    push_lenstr(out, b.url.as_str());
    out.push('\n');
    assert(out@ =~= old(out)@ + spec_item(b@));
}

/// Appends the bookmark lines from index `i` on.
fn push_items_from(out: &mut Vec<char>, items: &Vec<Bookmark>, i: usize)
    requires
        i <= items@.len(),
    ensures
        final(out)@ == old(out)@ + spec_items(bm_views(items@).skip(i as int)),
    decreases items@.len() - i,
{
    if i < items.len() {
        push_item(out, &items[i]);
        push_items_from(out, items, i + 1);
        proof {
            let vs = bm_views(items@);
            assert(vs.skip(i as int)[0] == items@[i as int]@);
            assert(vs.skip(i as int).drop_first() =~= vs.skip(i + 1));
            assert(out@ =~= old(out)@ + spec_items(vs.skip(i as int)));
        }
    } else {
        proof {
            assert(bm_views(items@).skip(i as int) =~= Seq::<BookmarkView>::empty());
        }
    }
}

/// Appends one category block.
fn push_cat(out: &mut Vec<char>, c: &BookmarkCategory)
    ensures
        final(out)@ == old(out)@ + spec_cat(c@),
{
    push_str_chars(out, "category ");
    push_lenstr(out, c.name.as_str());
    out.push(' ');
    push_nat(out, c.items.len() as u64);
    out.push('\n');
    push_items_from(out, &c.items, 0);
    proof {
        assert(bm_views(c.items@).skip(0) =~= c@.items);
        assert(out@ =~= old(out)@ + spec_cat(c@));
    }
}

/// Appends the category blocks from index `i` on.
fn push_cats_from(out: &mut Vec<char>, cats: &Vec<BookmarkCategory>, i: usize)
    requires
        i <= cats@.len(),
    ensures
        final(out)@ == old(out)@ + spec_cats(cat_views(cats@).skip(i as int)),
    decreases cats@.len() - i,
{
    if i < cats.len() {
        push_cat(out, &cats[i]);
        push_cats_from(out, cats, i + 1);
        proof {
            let vs = cat_views(cats@);
            assert(vs.skip(i as int)[0] == cats@[i as int]@);
            assert(vs.skip(i as int).drop_first() =~= vs.skip(i + 1));
            assert(out@ =~= old(out)@ + spec_cats(vs.skip(i as int)));
        }
    } else {
        proof {
            assert(cat_views(cats@).skip(i as int) =~= Seq::<BookmarkCategoryView>::empty());
        }
    }
}

/// Appends a whole bookmark list.
fn push_list(out: &mut Vec<char>, k: &str, cats: &Vec<BookmarkCategory>)
    ensures
        final(out)@ == old(out)@ + spec_list(k@, cat_views(cats@)),
{
    push_str_chars(out, k);
    push_nat(out, cats.len() as u64);
    out.push('\n');
    push_cats_from(out, cats, 0);
    proof {
        assert(cat_views(cats@).skip(0) =~= cat_views(cats@));
        assert(out@ =~= old(out)@ + spec_list(k@, cat_views(cats@)));
    }
}

/// Writes a settings record as its settings-file text.
pub fn encode_settings(c: &AppConfig) -> (out: Vec<char>)
    ensures
        out@ == spec_encode_settings(c@),
{
    let mut out: Vec<char> = Vec::new();
    push_field(&mut out, "user_name ", c.user_name.as_str());
    push_field(&mut out, "weather_api_key ", c.weather_api_key.as_str());
    push_field(&mut out, "location ", c.location.as_str());
    push_field(&mut out, "country_code ", c.country_code.as_str());
    push_opt_field(&mut out, "notion_api_key ", &c.notion_api_key);
    push_opt_field(&mut out, "notion_database_id ", &c.notion_database_id);
    push_list(&mut out, "desktop ", &c.bookmarks.desktop);
    push_list(&mut out, "web ", &c.bookmarks.web);
    proof {
        assert(cat_views(c.bookmarks.desktop@) == c@.bookmarks.desktop);
        assert(cat_views(c.bookmarks.web@) == c@.bookmarks.web);
        assert(out@ =~= spec_encode_settings(c@));
    }
    out
}

// ---------------------------------------------------------------------------
// Reading a record
// ---------------------------------------------------------------------------
/// The digit value of a character, when it is one.
fn ch_digit(c: char) -> (r: Option<u8>)
    ensures
        match r {
            Some(d) => is_digit(c) && d < 10 && d as nat == digit_val(c),
            None => !is_digit(c),
        },
{
    match c {
        '0' => Some(0),
        '1' => Some(1),
        '2' => Some(2),
        '3' => Some(3),
        '4' => Some(4),
        '5' => Some(5),
        '6' => Some(6),
        '7' => Some(7),
        '8' => Some(8),
        '9' => Some(9),
        _ => None,
    }
}

/// Reads further digits onto `acc`, exactly as `sp_nat_loop` does.
fn p_nat_loop(s: &Vec<char>, pos: usize, acc: u64) -> (r: Option<(u64, usize)>)
    requires
        pos <= s@.len(),
    ensures
        match r {
            Some((n, p)) => pos <= p <= s@.len() && sp_nat_loop(s@.skip(pos as int), acc) == Some(
                (n, s@.skip(p as int)),
            ),
            None => sp_nat_loop(s@.skip(pos as int), acc) is None,
        },
    decreases s@.len() - pos,
{
    let ghost t = s@.skip(pos as int);
    if pos >= s.len() {
        assert(t.len() == 0);
        return Some((acc, pos));
    }
    assert(t[0] == s@[pos as int]);
    match ch_digit(s[pos]) {
        None => Some((acc, pos)),
        Some(d) => {
            if acc > (u64::MAX - d as u64) / 10 {
                proof {
                    assert(acc * 10 + d as nat > u64::MAX) by (nonlinear_arith)
                        requires
                            acc > (u64::MAX - d as u64) / 10,
                            d < 10,
                    ;
                }
                None
            } else {
                proof {
                    assert(acc * 10 + d as nat <= u64::MAX) by (nonlinear_arith)
                        requires
                            acc <= (u64::MAX - d as u64) / 10,
                            d < 10,
                    ;
                    assert(t.drop_first() =~= s@.skip(pos + 1));
                }
                p_nat_loop(s, pos + 1, acc * 10 + d as u64)
            }
        },
    }
}

/// Reads a number, exactly as `sp_nat` does.
fn p_nat(s: &Vec<char>, pos: usize) -> (r: Option<(u64, usize)>)
    requires
        pos <= s@.len(),
    ensures
        match r {
            Some((n, p)) => pos <= p <= s@.len() && sp_nat(s@.skip(pos as int)) == Some(
                (n, s@.skip(p as int)),
            ),
            None => sp_nat(s@.skip(pos as int)) is None,
        },
{
    let ghost t = s@.skip(pos as int);
    if pos >= s.len() {
        assert(t.len() == 0);
        return None;
    }
    assert(t[0] == s@[pos as int]);
    match ch_digit(s[pos]) {
        None => None,
        Some(_) => p_nat_loop(s, pos, 0),
    }
}

/// Reads exactly `n` characters, exactly as `sp_take` does.
fn p_take(s: &Vec<char>, pos: usize, n: u64) -> (r: Option<(Vec<char>, usize)>)
    requires
        pos <= s@.len(),
    ensures
        match r {
            Some((v, p)) => pos <= p <= s@.len() && sp_take(s@.skip(pos as int), n) == Some(
                (v@, s@.skip(p as int)),
            ),
            None => sp_take(s@.skip(pos as int), n) is None,
        },
{
    let ghost t = s@.skip(pos as int);
    if n > (s.len() - pos) as u64 {
        assert(t.len() == s@.len() - pos);
        return None;
    }
    let n_us = n as usize;
    assert(n_us as u64 == n);
    let mut v: Vec<char> = Vec::new();
    let mut i: usize = 0;
    while i < n_us
        invariant
            i <= n_us,
            pos + n_us <= s@.len(),
            s@.len() <= usize::MAX,
            v@ =~= s@.subrange(pos as int, pos + i),
        decreases n_us - i,
    {
        v.push(s[pos + i]);
        assert(v@ =~= s@.subrange(pos as int, pos + i + 1));
        i += 1;
    }
    proof {
        assert(t.take(n as int) =~= s@.subrange(pos as int, pos + n_us));
        assert(t.skip(n as int) =~= s@.skip(pos + n_us));
    }
    Some((v, pos + n_us))
}

/// Reads the exact characters of `lit`, exactly as `sp_expect` does.
fn p_expect(s: &Vec<char>, pos: usize, lit: &str) -> (r: Option<usize>)
    requires
        pos <= s@.len(),
    ensures
        match r {
            Some(p) => pos <= p <= s@.len() && sp_expect(s@.skip(pos as int), lit@) == Some(
                s@.skip(p as int),
            ),
            None => sp_expect(s@.skip(pos as int), lit@) is None,
        },
{
    let ghost t = s@.skip(pos as int);
    let n = lit.unicode_len();
    if n > s.len() - pos {
        assert(lit@.len() > t.len());
        return None;
    }
    let mut i: usize = 0;
    while i < n
        invariant
            i <= n,
            n == lit@.len(),
            pos + n <= s@.len(),
            s@.len() <= usize::MAX,
            t == s@.skip(pos as int),
            forall|j: int| 0 <= j < i ==> s@[pos + j] == lit@[j],
        decreases n - i,
    {
        if s[pos + i] != lit.get_char(i) {
            proof {
                assert(t.take(n as int)[i as int] == s@[pos + i]);
                assert(t.take(n as int) != lit@);
            }
            return None;
        }
        i += 1;
    }
    proof {
        assert(t.take(n as int) =~= lit@);
        assert(t.skip(n as int) =~= s@.skip(pos + n));
    }
    Some(pos + n)
}

/// Reads a length-prefixed string, exactly as `sp_lenstr` does.
fn p_lenstr(s: &Vec<char>, pos: usize) -> (r: Option<(String, usize)>)
    requires
        pos <= s@.len(),
    ensures
        match r {
            Some((v, p)) => pos <= p <= s@.len() && sp_lenstr(s@.skip(pos as int)) == Some(
                (v@, s@.skip(p as int)),
            ),
            None => sp_lenstr(s@.skip(pos as int)) is None,
        },
{
    proof {
        reveal_strlit(":");
        assert(":"@ =~= seq![':']);
    }
    let (n, p1) = match p_nat(s, pos) {
        Some(x) => x,
        None => {
            return None;
        },
    };
    let p2 = match p_expect(s, p1, ":") {
        Some(x) => x,
        None => {
            return None;
        },
    };
    let (v, p3) = match p_take(s, p2, n) {
        Some(x) => x,
        None => {
            return None;
        },
    };
    Some((chars_to_string(&v), p3))
}

/// Reads a required field line, exactly as `sp_field` does.
fn p_field(s: &Vec<char>, pos: usize, k: &str) -> (r: Option<(String, usize)>)
    requires
        pos <= s@.len(),
    ensures
        match r {
            Some((v, p)) => pos <= p <= s@.len() && sp_field(s@.skip(pos as int), k@) == Some(
                (v@, s@.skip(p as int)),
            ),
            None => sp_field(s@.skip(pos as int), k@) is None,
        },
{
    proof {
        reveal_strlit("\n");
        assert("\n"@ =~= seq!['\n']);
    }
    let p1 = match p_expect(s, pos, k) {
        Some(x) => x,
        None => {
            return None;
        },
    };
    let (v, p2) = match p_lenstr(s, p1) {
        Some(x) => x,
        None => {
            return None;
        },
    };
    let p3 = match p_expect(s, p2, "\n") {
        Some(x) => x,
        None => {
            return None;
        },
    };
    Some((v, p3))
}

/// Reads an optional field line, exactly as `sp_opt_field` does.
fn p_opt_field(s: &Vec<char>, pos: usize, k: &str) -> (r: Option<(Option<String>, usize)>)
    requires
        pos <= s@.len(),
    ensures
        match r {
            Some((v, p)) => pos <= p <= s@.len() && sp_opt_field(s@.skip(pos as int), k@) == Some(
                (
                    match v {
                        Some(x) => Some(x@),
                        None => None,
                    },
                    s@.skip(p as int),
                ),
            ),
            None => sp_opt_field(s@.skip(pos as int), k@) is None,
        },
{
    proof {
        reveal_strlit("\n");
        assert("\n"@ =~= seq!['\n']);
        reveal_strlit("-\n");
        assert("-\n"@ =~= seq!['-', '\n']);
    }
    let p1 = match p_expect(s, pos, k) {
        Some(x) => x,
        None => {
            return None;
        },
    };
    let ghost t1 = s@.skip(p1 as int);
    if p1 < s.len() && s[p1] == '-' {
        assert(t1.len() > 0 && t1[0] == '-');
        let p2 = match p_expect(s, p1, "-\n") {
            Some(x) => x,
            None => {
                return None;
            },
        };
        Some((None, p2))
    } else {
        assert(!(t1.len() > 0 && t1[0] == '-'));
        let (v, p2) = match p_lenstr(s, p1) {
            Some(x) => x,
            None => {
                return None;
            },
        };
        let p3 = match p_expect(s, p2, "\n") {
            Some(x) => x,
            None => {
                return None;
            },
        };
        Some((Some(v), p3))
    }
}

/// Reads one bookmark line, exactly as `sp_item` does.
fn p_item(s: &Vec<char>, pos: usize) -> (r: Option<(Bookmark, usize)>)
    requires
        pos <= s@.len(),
    ensures
        match r {
            Some((b, p)) => pos <= p <= s@.len() && sp_item(s@.skip(pos as int)) == Some(
                (b@, s@.skip(p as int)),
            ),
            None => sp_item(s@.skip(pos as int)) is None,
        },
{
    proof {
        reveal_strlit(" ");
        assert(" "@ =~= seq![' ']);
        reveal_strlit("\n");
        assert("\n"@ =~= seq!['\n']);
    }
    let p1 = match p_expect(s, pos, "bookmark ") {
        Some(x) => x,
        None => {
            return None;
        },
    };
    let (name, p2) = match p_lenstr(s, p1) {
        Some(x) => x,
        None => {
            return None;
        },
    };
    let p3 = match p_expect(s, p2, " ") {
        Some(x) => x,
        None => {
            return None;
        },
    };
    let (url, p4) = match p_lenstr(s, p3) {
        Some(x) => x,
        None => {
            return None;
        },
    };
    let p5 = match p_expect(s, p4, "\n") {
        Some(x) => x,
        None => {
            return None;
        },
    };
    Some((Bookmark { name, url }, p5))
}

/// Reads exactly `n` bookmark lines, exactly as `sp_items` does.
fn p_items(s: &Vec<char>, pos: usize, n: u64) -> (r: Option<(Vec<Bookmark>, usize)>)
    requires
        pos <= s@.len(),
    ensures
        match r {
            Some((v, p)) => pos <= p <= s@.len() && sp_items(s@.skip(pos as int), n) == Some(
                (bm_views(v@), s@.skip(p as int)),
            ),
            None => sp_items(s@.skip(pos as int), n) is None,
        },
    decreases n,
{
    if n == 0 {
        let v: Vec<Bookmark> = Vec::new();
        assert(bm_views(v@) =~= Seq::<BookmarkView>::empty());
        return Some((v, pos));
    }
    let (b, p1) = match p_item(s, pos) {
        Some(x) => x,
        None => {
            return None;
        },
    };
    let (mut v, p2) = match p_items(s, p1, n - 1) {
        Some(x) => x,
        None => {
            return None;
        },
    };
    let ghost old_v = v@;
    v.insert(0, b);
    proof {
        assert(v@ =~= seq![b] + old_v);
        assert(bm_views(v@) =~= seq![b@] + bm_views(old_v));
    }
    Some((v, p2))
}

/// Reads one category block, exactly as `sp_cat` does.
fn p_cat(s: &Vec<char>, pos: usize) -> (r: Option<(BookmarkCategory, usize)>)
    requires
        pos <= s@.len(),
    ensures
        match r {
            Some((c, p)) => pos <= p <= s@.len() && sp_cat(s@.skip(pos as int)) == Some(
                (c@, s@.skip(p as int)),
            ),
            None => sp_cat(s@.skip(pos as int)) is None,
        },
{
    proof {
        reveal_strlit(" ");
        assert(" "@ =~= seq![' ']);
        reveal_strlit("\n");
        assert("\n"@ =~= seq!['\n']);
    }
    let p1 = match p_expect(s, pos, "category ") {
        Some(x) => x,
        None => {
            return None;
        },
    };
    let (name, p2) = match p_lenstr(s, p1) {
        Some(x) => x,
        None => {
            return None;
        },
    };
    let p3 = match p_expect(s, p2, " ") {
        Some(x) => x,
        None => {
            return None;
        },
    };
    let (n, p4) = match p_nat(s, p3) {
        Some(x) => x,
        None => {
            return None;
        },
    };
    let p5 = match p_expect(s, p4, "\n") {
        Some(x) => x,
        None => {
            return None;
        },
    };
    let (items, p6) = match p_items(s, p5, n) {
        Some(x) => x,
        None => {
            return None;
        },
    };
    Some((BookmarkCategory { name, items }, p6))
}

/// Reads exactly `n` category blocks, exactly as `sp_cats` does.
fn p_cats(s: &Vec<char>, pos: usize, n: u64) -> (r: Option<(Vec<BookmarkCategory>, usize)>)
    requires
        pos <= s@.len(),
    ensures
        match r {
            Some((v, p)) => pos <= p <= s@.len() && sp_cats(s@.skip(pos as int), n) == Some(
                (cat_views(v@), s@.skip(p as int)),
            ),
            None => sp_cats(s@.skip(pos as int), n) is None,
        },
    decreases n,
{
    if n == 0 {
        let v: Vec<BookmarkCategory> = Vec::new();
        assert(cat_views(v@) =~= Seq::<BookmarkCategoryView>::empty());
        return Some((v, pos));
    }
    let (c, p1) = match p_cat(s, pos) {
        Some(x) => x,
        None => {
            return None;
        },
    };
    let (mut v, p2) = match p_cats(s, p1, n - 1) {
        Some(x) => x,
        None => {
            return None;
        },
    };
    let ghost old_v = v@;
    v.insert(0, c);
    proof {
        assert(v@ =~= seq![c] + old_v);
        assert(cat_views(v@) =~= seq![c@] + cat_views(old_v));
    }
    Some((v, p2))
}

/// Reads a whole bookmark list, exactly as `sp_list` does.
fn p_list(s: &Vec<char>, pos: usize, k: &str) -> (r: Option<(Vec<BookmarkCategory>, usize)>)
    requires
        pos <= s@.len(),
    ensures
        match r {
            Some((v, p)) => pos <= p <= s@.len() && sp_list(s@.skip(pos as int), k@) == Some(
                (cat_views(v@), s@.skip(p as int)),
            ),
            None => sp_list(s@.skip(pos as int), k@) is None,
        },
{
    proof {
        reveal_strlit("\n");
        assert("\n"@ =~= seq!['\n']);
    }
    let p1 = match p_expect(s, pos, k) {
        Some(x) => x,
        None => {
            return None;
        },
    };
    let (n, p2) = match p_nat(s, p1) {
        Some(x) => x,
        None => {
            return None;
        },
    };
    let p3 = match p_expect(s, p2, "\n") {
        Some(x) => x,
        None => {
            return None;
        },
    };
    p_cats(s, p3, n)
}

/// Reads a settings record from its settings-file text. Returns a record
/// exactly when the text is a well-formed settings document, and then the
/// record the text denotes.
pub fn parse_settings(s: &Vec<char>) -> (r: Option<AppConfig>)
    ensures
        match r {
            Some(c) => sp_settings(s@) == Some(c@),
            None => sp_settings(s@) is None,
        },
{
    let ghost whole = s@;
    proof {
        assert(whole.skip(0) =~= whole);
    }
    let (user_name, p1) = match p_field(s, 0, "user_name ") {
        Some(x) => x,
        None => {
            return None;
        },
    };
    let (weather_api_key, p2) = match p_field(s, p1, "weather_api_key ") {
        Some(x) => x,
        None => {
            return None;
        },
    };
    let (location, p3) = match p_field(s, p2, "location ") {
        Some(x) => x,
        None => {
            return None;
        },
    };
    let (country_code, p4) = match p_field(s, p3, "country_code ") {
        Some(x) => x,
        None => {
            return None;
        },
    };
    let (notion_api_key, p5) = match p_opt_field(s, p4, "notion_api_key ") {
        Some(x) => x,
        None => {
            return None;
        },
    };
    let (notion_database_id, p6) = match p_opt_field(s, p5, "notion_database_id ") {
        Some(x) => x,
        None => {
            return None;
        },
    };
    let (desktop, p7) = match p_list(s, p6, "desktop ") {
        Some(x) => x,
        None => {
            return None;
        },
    };
    let (web, p8) = match p_list(s, p7, "web ") {
        Some(x) => x,
        None => {
            return None;
        },
    };
    if p8 != s.len() {
        assert(s@.skip(p8 as int).len() > 0);
        return None;
    }
    assert(s@.skip(p8 as int).len() == 0);
    let c = AppConfig {
        user_name,
        weather_api_key,
        location,
        country_code,
        bookmarks: Bookmarks { desktop, web },
        notion_api_key,
        notion_database_id,
    };
    proof {
        assert(sp_settings(s@) matches Some(v) && v =~~= c@);
    }
    Some(c)
}

/// The startup settings decision: with no settings file, the default record
/// is adopted and its text is handed back to be written; with a file, its
/// text is parsed, and a malformed file yields nothing (startup then fails).
pub fn load_or_init(file: Option<Vec<char>>, username: String) -> (r: Option<
    (AppConfig, Option<Vec<char>>),
>)
    ensures
        match file {
            None => {
                &&& r matches Some((c, w))
                &&& c@ == crate::config::spec_default_config(username@)
                &&& w matches Some(text)
                &&& text@ == spec_encode_settings(crate::config::spec_default_config(username@))
            },
            Some(text) => match sp_settings(text@) {
                Some(v) => {
                    &&& r matches Some((c, w))
                    &&& c@ == v
                    &&& w is None
                },
                None => r is None,
            },
        },
{
    match file {
        None => {
            let c = AppConfig::default_with_username(username);
            let w = encode_settings(&c);
            Some((c, Some(w)))
        },
        Some(text) => match parse_settings(&text) {
            Some(c) => Some((c, None)),
            None => None,
        },
    }
}

} // verus!
