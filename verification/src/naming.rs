use vstd::prelude::*;

use crate::models::JellyfinItem;
use crate::text::{
    chars_lt, decimal, decimal_string, digit_char, joined, opt_view, path_join, zero_pad,
    zero_padded,
};

verus! {

/// A character that a sanitized file name never holds: one of the characters
/// that file systems reserve (`/ ? < > \ : * | "`) or a control character
/// (U+0000 to U+001F and U+0080 to U+009F).
pub open spec fn unsafe_file_char(c: char) -> bool {
    ||| c == '/'
    ||| c == '?'
    ||| c == '<'
    ||| c == '>'
    ||| c == '\\'
    ||| c == ':'
    ||| c == '*'
    ||| c == '|'
    ||| c == '"'
    ||| (c as int) <= 0x1f
    ||| (0x80 <= (c as int) && (c as int) <= 0x9f)
}

/// How many bytes a character takes in UTF-8.
pub open spec fn utf8_width(c: char) -> nat {
    if (c as int) < 0x80 {
        1
    } else if (c as int) < 0x800 {
        2
    } else if (c as int) < 0x10000 {
        3
    } else {
        4
    }
}

/// How many bytes a text takes in UTF-8.
pub open spec fn utf8_len(s: Seq<char>) -> nat
    decreases s.len(),
{
    if s.len() == 0 {
        0
    } else {
        utf8_len(s.drop_last()) + utf8_width(s.last())
    }
}

/// `c` is the lower-case ASCII letter `lower` or its upper-case form.
pub open spec fn letter_ignoring_case(c: char, lower: char) -> bool {
    c == lower || (c as int) + 32 == (lower as int)
}

/// The first three characters of `name` spell `word` (three lower-case ASCII
/// letters), ignoring ASCII case.
pub open spec fn starts_with_word(name: Seq<char>, word: Seq<char>) -> bool {
    &&& name.len() >= 3
    &&& letter_ignoring_case(name[0], word[0])
    &&& letter_ignoring_case(name[1], word[1])
    &&& letter_ignoring_case(name[2], word[2])
}

/// `name` is a device name that Windows reserves (`con`, `prn`, `aux`, `nul`,
/// or `com` or `lpt` and a digit, in any ASCII case), alone or followed by a
/// dot and anything.
pub open spec fn windows_reserved_name(name: Seq<char>) -> bool {
    let three = starts_with_word(name, "con"@) || starts_with_word(name, "prn"@) || starts_with_word(
        name,
        "aux"@,
    ) || starts_with_word(name, "nul"@);
    let four = (starts_with_word(name, "com"@) || starts_with_word(name, "lpt"@)) && name.len() >= 4
        && '0' <= name[3] && name[3] <= '9';
    ||| three && (name.len() == 3 || name[3] == '.')
    ||| four && (name.len() == 4 || name[4] == '.')
}

/// A name that sanitizing gives back unchanged on every platform: it holds no
/// unsafe character, does not end in a dot or a space (so it is not made only
/// of dots), is not a name that Windows reserves, and takes at most 255 bytes.
pub open spec fn plain_file_name(name: Seq<char>) -> bool {
    &&& forall|i: int| 0 <= i < name.len() ==> !unsafe_file_char(#[trigger] name[i])
    &&& (name.len() > 0 ==> name.last() != '.' && name.last() != ' ')
    &&& !windows_reserved_name(name)
    &&& utf8_len(name) <= 255
}

/// `name` without its unsafe characters.
pub open spec fn without_unsafe(name: Seq<char>) -> Seq<char> {
    name.filter(|c: char| !unsafe_file_char(c))
}

/// The empty name in place of a name made only of dots.
pub open spec fn without_dot_name(name: Seq<char>) -> Seq<char> {
    if name.len() > 0 && forall|i: int| 0 <= i < name.len() ==> name[i] == '.' {
        Seq::empty()
    } else {
        name
    }
}

/// `name` without the dots and spaces at its end.
pub open spec fn without_trailing_dots(name: Seq<char>) -> Seq<char>
    decreases name.len(),
{
    if name.len() > 0 && (name.last() == '.' || name.last() == ' ') {
        without_trailing_dots(name.drop_last())
    } else {
        name
    }
}

/// The longest start of `name` that takes at most `budget` bytes in UTF-8.
pub open spec fn utf8_prefix(name: Seq<char>, budget: int) -> Seq<char>
    decreases name.len(),
{
    if name.len() > 0 && utf8_width(name[0]) <= budget {
        seq![name[0]] + utf8_prefix(name.drop_first(), budget - utf8_width(name[0]))
    } else {
        Seq::empty()
    }
}

/// Sanitizing as `sanitize_filename` does it off Windows: the unsafe
/// characters deleted, a name of dots emptied, the rest cut to 255 bytes at a
/// character boundary.
pub open spec fn sanitized_elsewhere(name: Seq<char>) -> Seq<char> {
    utf8_prefix(without_dot_name(without_unsafe(name)), 255)
}

/// Sanitizing as `sanitize_filename` does it on Windows: as elsewhere, and a
/// reserved device name is also emptied and trailing dots and spaces deleted
/// before the cut.
pub open spec fn sanitized_on_windows(name: Seq<char>) -> Seq<char> {
    let s = without_dot_name(without_unsafe(name));
    let s = if windows_reserved_name(s) {
        Seq::empty()
    } else {
        s
    };
    utf8_prefix(without_trailing_dots(s), 255)
}

/// What sanitizing `name` gives: the Windows form or the form of other
/// platforms, as the platform has it.
pub open spec fn sanitized_from(clean: Seq<char>, name: Seq<char>) -> bool {
    clean == sanitized_elsewhere(name) || clean == sanitized_on_windows(name)
}

/// A name whose characters are all kept is kept whole.
proof fn lemma_filter_keeps_all(name: Seq<char>)
    requires
        forall|i: int| 0 <= i < name.len() ==> !unsafe_file_char(#[trigger] name[i]),
    ensures
        without_unsafe(name) == name,
    decreases name.len(),
{
    reveal(Seq::filter);
    if name.len() > 0 {
        lemma_filter_keeps_all(name.drop_last());
        assert(name.drop_last().push(name.last()) =~= name);
    }
}

/// The UTF-8 length of a text is that of its first character and the rest.
proof fn lemma_utf8_len_front(s: Seq<char>)
    requires
        s.len() > 0,
    ensures
        utf8_len(s) == utf8_width(s[0]) + utf8_len(s.drop_first()),
    decreases s.len(),
{
    if s.len() > 1 {
        lemma_utf8_len_front(s.drop_last());
        assert(s.drop_last().drop_first() =~= s.drop_first().drop_last());
    } else {
        assert(s.drop_first() =~= Seq::<char>::empty());
        assert(s.drop_last() =~= Seq::<char>::empty());
    }
}

/// A text that fits in the budget is not cut.
proof fn lemma_utf8_prefix_fits(s: Seq<char>, budget: int)
    requires
        utf8_len(s) <= budget,
    ensures
        utf8_prefix(s, budget) == s,
    decreases s.len(),
{
    if s.len() > 0 {
        lemma_utf8_len_front(s);
        lemma_utf8_prefix_fits(s.drop_first(), budget - utf8_width(s[0]));
        assert(seq![s[0]] + s.drop_first() =~= s);
    }
}

/// The cut keeps a start of the text.
proof fn lemma_utf8_prefix_is_prefix(s: Seq<char>, budget: int)
    ensures
        utf8_prefix(s, budget).is_prefix_of(s),
    decreases s.len(),
{
    if s.len() > 0 && utf8_width(s[0]) <= budget {
        lemma_utf8_prefix_is_prefix(s.drop_first(), budget - utf8_width(s[0]));
        let p = utf8_prefix(s.drop_first(), budget - utf8_width(s[0]));
        assert forall|i: int| 0 <= i < utf8_prefix(s, budget).len() implies utf8_prefix(
            s,
            budget,
        )[i] == s[i] by {
            if i > 0 {
                assert(utf8_prefix(s, budget)[i] == p[i - 1]);
            }
        }
    }
}

/// Deleting trailing dots and spaces keeps a start of the text.
proof fn lemma_without_trailing_dots_is_prefix(s: Seq<char>)
    ensures
        without_trailing_dots(s).is_prefix_of(s),
    decreases s.len(),
{
    if s.len() > 0 && (s.last() == '.' || s.last() == ' ') {
        lemma_without_trailing_dots_is_prefix(s.drop_last());
    }
}

/// Sanitizing, in either form, leaves no unsafe character, and gives a plain
/// name back unchanged.
pub proof fn lemma_sanitized_facts(name: Seq<char>)
    ensures
        forall|clean: Seq<char>|
            #[trigger] sanitized_from(clean, name) ==> (forall|i: int|
                0 <= i < clean.len() ==> !unsafe_file_char(#[trigger] clean[i])),
        plain_file_name(name) ==> sanitized_elsewhere(name) == name,
        plain_file_name(name) ==> sanitized_on_windows(name) == name,
{
    let kept = without_unsafe(name);
    let pred = |c: char| !unsafe_file_char(c);
    assert forall|i: int| 0 <= i < kept.len() implies !unsafe_file_char(#[trigger] kept[i]) by {
        name.lemma_filter_pred(pred, i);
    }
    let s = without_dot_name(kept);
    let w = if windows_reserved_name(s) {
        Seq::<char>::empty()
    } else {
        s
    };
    lemma_utf8_prefix_is_prefix(s, 255);
    lemma_without_trailing_dots_is_prefix(w);
    lemma_utf8_prefix_is_prefix(without_trailing_dots(w), 255);
    assert forall|clean: Seq<char>| #[trigger] sanitized_from(clean, name) implies (forall|i: int|
        0 <= i < clean.len() ==> !unsafe_file_char(#[trigger] clean[i])) by {
        assert forall|i: int| 0 <= i < clean.len() implies !unsafe_file_char(
            #[trigger] clean[i],
        ) by {
            if clean == sanitized_elsewhere(name) {
                assert(clean[i] == s[i]);
            } else {
                assert(clean[i] == without_trailing_dots(w)[i]);
                assert(without_trailing_dots(w)[i] == w[i]);
            }
        }
    }
    if plain_file_name(name) {
        lemma_filter_keeps_all(name);
        assert(s == name);
        lemma_utf8_prefix_fits(name, 255);
    }
}

/// `sanitize_filename::sanitize`. It deletes the reserved characters and the
/// control characters, replaces a name made only of dots with the empty name,
/// and cuts the result to 255 bytes at a character boundary; on Windows it
/// also replaces reserved device names with the empty name and deletes
/// trailing dots and spaces. Since the result depends on the platform the
/// library is built for, the contract states it as one of the two forms.
#[verifier::external_body]
fn sanitize_name(name: &str) -> (r: String)
    ensures
        sanitized_from(r@, name@),
{
    sanitize_filename::sanitize(name)
}

/// How many digits a track number gets: those of the album's track count, or
/// two when the count is zero.
pub open spec fn track_number_width(total: nat) -> nat {
    if total == 0 {
        2
    } else {
        decimal(total).len()
    }
}

/// The extension of a track file: a dot and the container, or nothing.
pub open spec fn file_extension(container: Option<Seq<char>>) -> Seq<char> {
    match container {
        Some(e) => seq!['.'] + e,
        None => Seq::empty(),
    }
}

/// The file name of a track: its number (0 when it has none), zero-padded to
/// the width of the track count, then `" - "`, the sanitized track name and
/// the extension.
pub open spec fn track_file_name(
    index: Option<u32>,
    total: nat,
    clean_name: Seq<char>,
    container: Option<Seq<char>>,
) -> Seq<char> {
    let number = match index {
        Some(i) => i as nat,
        None => 0,
    };
    zero_pad(decimal(number), track_number_width(total)) + seq![' ', '-', ' '] + clean_name
        + file_extension(container)
}

/// The file name of a track from its already sanitized name.
pub fn track_file_name_from_clean(
    index_number: Option<u32>,
    total_tracks: usize,
    clean_name: &str,
    container: &Option<String>,
) -> (r: String)
    ensures
        r@ == track_file_name(index_number, total_tracks as nat, clean_name@, opt_view(*container)),
{
    let width: usize = if total_tracks == 0 {
        2
    } else {
        decimal_string(total_tracks as u64).unicode_len()
    };
    let number: u32 = match index_number {
        Some(i) => i,
        None => 0,
    };
    let padded = zero_padded(decimal_string(number as u64), width);
    proof {
        reveal_strlit(" - ");
        reveal_strlit(".");
        assert(" - "@ =~= seq![' ', '-', ' ']);
        assert("."@ =~= seq!['.']);
    }
    let mut r = padded.concat(" - ").concat(clean_name);
    match container {
        Some(ext) => {
            r.append(".");
            r.append(ext.as_str());
        },
        None => {},
    }
    r
}

/// The file name under which a track of an album with `total_tracks` tracks is
/// stored, as [`track_file_name`] describes it, from some sanitizing of the
/// track's name; a plain track name is used as it is.
pub fn generate_track_name(track: &JellyfinItem, total_tracks: usize) -> (r: String)
    ensures
        exists|clean: Seq<char>|
            sanitized_from(clean, track.name@) && r@ == track_file_name(
                track.index_number,
                total_tracks as nat,
                clean,
                opt_view(track.container),
            ),
        plain_file_name(track.name@) ==> r@ == track_file_name(
            track.index_number,
            total_tracks as nat,
            track.name@,
            opt_view(track.container),
        ),
{
    let clean = sanitize_name(track.name.as_str());
    proof {
        lemma_sanitized_facts(track.name@);
    }
    track_file_name_from_clean(track.index_number, total_tracks, clean.as_str(), &track.container)
}

/// `r` is the directory of an album below the application's data directory:
/// `downloads`, then the artist, then the album title, each joined as
/// `Path::join` joins them.
pub open spec fn album_dir(r: Seq<char>, data_dir: Seq<char>, artist: Seq<char>, title: Seq<char>) -> bool {
    exists|downloads: Seq<char>, artist_dir: Seq<char>|
        joined(downloads, data_dir, "downloads"@) && joined(artist_dir, downloads, artist) && joined(
            r,
            artist_dir,
            title,
        )
}

/// The path of an album's directory, from some sanitizing of artist and title;
/// plain names are used as they are.
pub fn album_dir_path(data_dir: &str, artist: &str, title: &str) -> (r: String)
    ensures
        exists|a: Seq<char>, t: Seq<char>|
            sanitized_from(a, artist@) && sanitized_from(t, title@) && album_dir(
                r@,
                data_dir@,
                a,
                t,
            ),
        plain_file_name(artist@) && plain_file_name(title@) ==> album_dir(
            r@,
            data_dir@,
            artist@,
            title@,
        ),
{
    let clean_artist = sanitize_name(artist);
    let clean_title = sanitize_name(title);
    proof {
        lemma_sanitized_facts(artist@);
        lemma_sanitized_facts(title@);
    }
    let downloads = path_join(data_dir, "downloads");
    let with_artist = path_join(downloads.as_str(), clean_artist.as_str());
    let r = path_join(with_artist.as_str(), clean_title.as_str());
    assert(album_dir(r@, data_dir@, clean_artist@, clean_title@));
    r
}

// ---------------------------------------------------------------------------
// Zero-padded track numbers follow the track order
// ---------------------------------------------------------------------------

/// `n` written with exactly `w` decimal digits (the lowest `w` digits).
pub open spec fn fixed_digits(n: nat, w: nat) -> Seq<char>
    decreases w,
{
    if w == 0 {
        Seq::empty()
    } else {
        fixed_digits(n / 10, (w - 1) as nat).push(digit_char(n % 10))
    }
}

/// Ten to the power `w`.
pub open spec fn pow10(w: nat) -> nat
    decreases w,
{
    if w == 0 {
        1
    } else {
        10 * pow10((w - 1) as nat)
    }
}

proof fn lemma_decimal_len_bound(n: nat)
    ensures
        decimal(n).len() >= 1,
        n < pow10(decimal(n).len()),
    decreases n,
{
    if n >= 10 {
        lemma_decimal_len_bound(n / 10);
        let l = decimal(n / 10).len();
        assert(decimal(n).len() == l + 1);
        assert(pow10(l + 1) == 10 * pow10(l));
        let q = n / 10;
        let p = pow10(l);
        assert(n < 10 * p) by (nonlinear_arith)
            requires
                q < p,
                q == n / 10,
        ;
    } else {
        reveal_with_fuel(pow10, 2);
    }
}

proof fn lemma_decimal_len_monotone(n: nat, m: nat)
    requires
        n <= m,
    ensures
        decimal(n).len() <= decimal(m).len(),
    decreases m,
{
    if m >= 10 && n >= 10 {
        lemma_decimal_len_monotone(n / 10, m / 10);
    }
    if m >= 10 {
        lemma_decimal_len_bound(m / 10);
    }
}

proof fn lemma_pad_is_fixed(n: nat, w: nat)
    requires
        decimal(n).len() <= w,
    ensures
        zero_pad(decimal(n), w) == fixed_digits(n, w),
    decreases w,
{
    if n < 10 {
        lemma_fixed_small(n, w);
    } else {
        let d = decimal(n / 10);
        lemma_pad_is_fixed(n / 10, (w - 1) as nat);
        assert(zero_pad(d.push(digit_char(n % 10)), w) =~= zero_pad(d, (w - 1) as nat).push(
            digit_char(n % 10),
        ));
    }
}

proof fn lemma_fixed_small(n: nat, w: nat)
    requires
        n < 10,
        w >= 1,
    ensures
        zero_pad(decimal(n), w) == fixed_digits(n, w),
    decreases w,
{
    lemma_fixed_zero((w - 1) as nat);
    assert(zero_pad(decimal(n), w) =~= Seq::new((w - 1) as nat, |i: int| '0').push(
        digit_char(n),
    ));
}

proof fn lemma_fixed_zero(w: nat)
    ensures
        fixed_digits(0, w) == Seq::new(w, |i: int| '0'),
    decreases w,
{
    if w > 0 {
        lemma_fixed_zero((w - 1) as nat);
        assert(fixed_digits(0, w) =~= Seq::new(w, |i: int| '0'));
    }
}

proof fn lemma_lt_push(a: Seq<char>, x: char, b: Seq<char>, y: char)
    requires
        a.len() == b.len(),
        chars_lt(a, b) || (a == b && (x as int) < (y as int)),
    ensures
        chars_lt(a.push(x), b.push(y)),
    decreases a.len(),
{
    if a.len() > 0 {
        assert(a.push(x).drop_first() =~= a.drop_first().push(x));
        assert(b.push(y).drop_first() =~= b.drop_first().push(y));
        if a[0] == b[0] {
            if a == b {
                assert(a.drop_first() == b.drop_first());
            }
            lemma_lt_push(a.drop_first(), x, b.drop_first(), y);
        }
    }
}

/// Sequences of equal length keep their order whatever follows them.
pub proof fn lemma_lt_extend(a: Seq<char>, b: Seq<char>, x: Seq<char>, y: Seq<char>)
    requires
        a.len() == b.len(),
        chars_lt(a, b),
    ensures
        chars_lt(a + x, b + y),
    decreases a.len(),
{
    if a[0] == b[0] {
        assert((a + x).drop_first() =~= a.drop_first() + x);
        assert((b + y).drop_first() =~= b.drop_first() + y);
        lemma_lt_extend(a.drop_first(), b.drop_first(), x, y);
    }
}

proof fn lemma_fixed_order(n: nat, m: nat, w: nat)
    requires
        n < m < pow10(w),
    ensures
        chars_lt(fixed_digits(n, w), fixed_digits(m, w)),
        fixed_digits(n, w).len() == w,
        fixed_digits(m, w).len() == w,
    decreases w,
{
    lemma_fixed_len(n, w);
    lemma_fixed_len(m, w);
    let w1 = (w - 1) as nat;
    if n / 10 < m / 10 {
        assert(m / 10 < pow10(w1));
        lemma_fixed_order(n / 10, m / 10, w1);
        lemma_lt_push(fixed_digits(n / 10, w1), digit_char(n % 10), fixed_digits(m / 10, w1), digit_char(m % 10));
    } else {
        assert(n % 10 < m % 10);
        lemma_lt_push(fixed_digits(n / 10, w1), digit_char(n % 10), fixed_digits(m / 10, w1), digit_char(m % 10));
    }
}

proof fn lemma_fixed_len(n: nat, w: nat)
    ensures
        fixed_digits(n, w).len() == w,
    decreases w,
{
    if w > 0 {
        lemma_fixed_len(n / 10, (w - 1) as nat);
    }
}

/// Track numbers are zero-padded to one width, so for the tracks of an album
/// the file names list in track order: a track with a lower number gets a file
/// name that sorts before that of a track with a higher number, whatever the
/// names and extensions.
pub proof fn lemma_track_file_names_follow_track_order(
    i: u32,
    j: u32,
    total: nat,
    clean_a: Seq<char>,
    clean_b: Seq<char>,
    container_a: Option<Seq<char>>,
    container_b: Option<Seq<char>>,
)
    requires
        i < j,
        j <= total,
    ensures
        chars_lt(
            track_file_name(Some(i), total, clean_a, container_a),
            track_file_name(Some(j), total, clean_b, container_b),
        ),
{
    let w = decimal(total).len();
    lemma_decimal_len_monotone(i as nat, total);
    lemma_decimal_len_monotone(j as nat, total);
    lemma_decimal_len_bound(total);
    lemma_pad_is_fixed(i as nat, w);
    lemma_pad_is_fixed(j as nat, w);
    lemma_fixed_order(i as nat, j as nat, w);
    let pi = zero_pad(decimal(i as nat), w);
    let pj = zero_pad(decimal(j as nat), w);
    let sep = seq![' ', '-', ' '];
    lemma_lt_extend(
        pi,
        pj,
        sep + clean_a + file_extension(container_a),
        sep + clean_b + file_extension(container_b),
    );
    assert(pi + sep + clean_a + file_extension(container_a) =~= pi + (sep + clean_a
        + file_extension(container_a)));
    assert(pj + sep + clean_b + file_extension(container_b) =~= pj + (sep + clean_b
        + file_extension(container_b)));
}

} // verus!
