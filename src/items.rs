//! Feed items and the text they are generated with.
use vstd::prelude::*;
use vstd::string::StringExecFns;
use crate::text::starts_with_text;
use std::collections::hash_map::DefaultHasher;
use std::hash::{BuildHasher, BuildHasherDefault};

verus! {

/// Locator prefix under which the asset protocol serves images.
pub const IMAGE_PREFIX: &'static str = "myprotocol/assets/images/";

/// Number of sample images an item can show.
pub const IMAGE_COUNT: u64 = 13;

/// One feed entry: a stable id, its text and an opaque image locator.
#[derive(Clone, PartialEq, Debug)]
pub struct VirtualFeedItem {
    pub id: String,
    pub content: String,
    pub image_url: String,
}

/// Character of the decimal digit `d`.
pub open spec fn digit_char(d: nat) -> char {
    seq!['0', '1', '2', '3', '4', '5', '6', '7', '8', '9'][d as int]
}

/// Decimal notation of `n`, without leading zeros.
pub open spec fn decimal(n: nat) -> Seq<char>
    decreases n,
{
    if n < 10 {
        seq![digit_char(n)]
    } else {
        decimal(n / 10).push(digit_char(n % 10))
    }
}

/// Decimal notation of a signed integer.
pub open spec fn signed_decimal(n: int) -> Seq<char> {
    if n < 0 {
        seq!['-'] + decimal((-n) as nat)
    } else {
        decimal(n as nat)
    }
}

fn digit_str(d: u64) -> (r: &'static str)
    requires
        d < 10,
    ensures
        r@ == seq![digit_char(d as nat)],
{
    proof {
        reveal_strlit("0");
        reveal_strlit("1");
        reveal_strlit("2");
        reveal_strlit("3");
        reveal_strlit("4");
        reveal_strlit("5");
        reveal_strlit("6");
        reveal_strlit("7");
        reveal_strlit("8");
        reveal_strlit("9");
    }
    let r = match d {
        0 => "0",
        1 => "1",
        2 => "2",
        3 => "3",
        4 => "4",
        5 => "5",
        6 => "6",
        7 => "7",
        8 => "8",
        _ => "9",
    };
    assert(r@ =~= seq![digit_char(d as nat)]);
    r
}

/// Decimal notation of `n`.
pub fn decimal_string(n: u64) -> (r: String)
    ensures
        r@ == decimal(n as nat),
    decreases n,
{
    if n < 10 {
        String::from_str(digit_str(n))
    } else {
        let head = decimal_string(n / 10);
        let r = head.concat(digit_str(n % 10));
        assert(r@ =~= decimal(n as nat));
        r
    }
}

/// Decimal notation of a signed `n`, with a leading `-` when negative.
pub fn signed_decimal_string(n: i64) -> (r: String)
    ensures
        r@ == signed_decimal(n as int),
{
    if n < 0 {
        let magnitude: u64 = ((-(n + 1)) as u64) + 1;
        let digits = decimal_string(magnitude);
        let r = String::from_str("-").concat(digits.as_str());
        proof {
            reveal_strlit("-");
        }
        assert(r@ =~= signed_decimal(n as int));
        r
    } else {
        decimal_string(n as u64)
    }
}

/// File name of the sample image with index `i`.
pub open spec fn image_name(i: nat) -> Seq<char> {
    if i == 0 { "sample1.svg"@ }
    else if i == 1 { "sample2.svg"@ }
    else if i == 2 { "sample3.svg"@ }
    else if i == 3 { "sample4.svg"@ }
    else if i == 4 { "sample5.svg"@ }
    else if i == 5 { "sample6.svg"@ }
    else if i == 6 { "sample7.avif"@ }
    else if i == 7 { "sample8.avif"@ }
    else if i == 8 { "sample9.avif"@ }
    else if i == 9 { "sample10.avif"@ }
    else if i == 10 { "sample11.avif"@ }
    else if i == 11 { "sample12.avif"@ }
    else { "sample13.avif"@ }
}

/// Whether `url` locates one of the sample images.
pub open spec fn is_sample_image_url(url: Seq<char>) -> bool {
    exists|i: nat| i < IMAGE_COUNT && url == IMAGE_PREFIX@ + image_name(i)
}

/// The sample image with index `i`.
pub fn available_image(i: u64) -> (r: &'static str)
    requires
        i < IMAGE_COUNT,
    ensures
        r@ == image_name(i as nat),
{
    match i {
        0 => "sample1.svg",
        1 => "sample2.svg",
        2 => "sample3.svg",
        3 => "sample4.svg",
        4 => "sample5.svg",
        5 => "sample6.svg",
        6 => "sample7.avif",
        7 => "sample8.avif",
        8 => "sample9.avif",
        9 => "sample10.avif",
        10 => "sample11.avif",
        11 => "sample12.avif",
        _ => "sample13.avif",
    }
}

/// The image picked for an id whose hash is `hash`.
pub fn image_for_hash(hash: u64) -> (r: &'static str)
    ensures
        r@ == image_name((hash % IMAGE_COUNT) as nat),
{
    available_image(hash % IMAGE_COUNT)
}

/// The hash of an id under std's `DefaultHasher`.
pub uninterp spec fn id_hash(id: Seq<char>) -> u64;

/// The image an item with id `id` shows.
pub open spec fn image_url_for(id: Seq<char>) -> Seq<char> {
    IMAGE_PREFIX@ + image_name((id_hash(id) % IMAGE_COUNT) as nat)
}

/// Relies on std's `BuildHasher::hash_one` with `DefaultHasher`: every
/// `DefaultHasher` made by `new` or `default` hashes alike, so the hash
/// depends on the id alone.
#[verifier::external_body]
fn hash_id(id: &str) -> (r: u64)
    ensures
        r == id_hash(id@),
{
    BuildHasherDefault::<DefaultHasher>::default().hash_one(id)
}

/// Image picked for the item with this id.
fn get_random_image_for_id(id: &str) -> (r: &'static str)
    ensures
        r@ == image_name((id_hash(id@) % IMAGE_COUNT) as nat),
{
    image_for_hash(hash_id(id))
}

impl VirtualFeedItem {
    /// An item whose image is `image_name` under the image prefix.
    pub fn new(id: String, content: String, image_name: &str) -> (r: Self)
        ensures
            r.id == id,
            r.content == content,
            r.image_url@ == IMAGE_PREFIX@ + image_name@,
    {
        let image_url = String::from_str(IMAGE_PREFIX).concat(image_name);
        VirtualFeedItem { id, content, image_url }
    }

    /// An item with the sample image picked by its id.
    pub fn new_with_random_image(id: String, content: String) -> (r: Self)
        ensures
            r.id == id,
            r.content == content,
            r.image_url@ == image_url_for(id@),
            is_sample_image_url(r.image_url@),
    {
        let image = get_random_image_for_id(id.as_str());
        let ghost key = id@;
        let r = Self::new(id, content, image);
        assert((id_hash(key) % IMAGE_COUNT) < IMAGE_COUNT);
        r
    }
}

/// Where a generated item comes from.
#[derive(Debug, Clone, Copy, PartialEq, Eq, Structural)]
pub enum Origin {
    /// Loaded above the first item.
    Older,
    /// Loaded below the last item.
    Newer,
    /// Produced by the real-time poller.
    Auto,
}

/// Leading part of a generated item's id.
pub open spec fn id_tag(o: Origin) -> Seq<char> {
    match o {
        Origin::Older => "older_"@,
        Origin::Newer => "newer_"@,
        Origin::Auto => "auto_"@,
    }
}

/// Text around the number in a generated item's content.
pub open spec fn content_parts(o: Origin) -> (Seq<char>, Seq<char>) {
    match o {
        Origin::Older => ("Older content item "@, " - loaded from top"@),
        Origin::Newer => ("Newer content item "@, " - loaded from bottom"@),
        Origin::Auto => ("Auto-generated item "@, " - real-time update"@),
    }
}

/// Id of the generated item number `n`, made at time `stamp`.
pub open spec fn item_id(o: Origin, n: nat, stamp: int) -> Seq<char> {
    id_tag(o) + decimal(n) + "_"@ + signed_decimal(stamp)
}

/// Content of the generated item number `n`.
pub open spec fn item_content(o: Origin, n: nat) -> Seq<char> {
    content_parts(o).0 + decimal(n) + content_parts(o).1
}

/// Whether `item` is the generated item number `n` of origin `o`.
pub open spec fn is_generated(item: VirtualFeedItem, o: Origin, n: nat, stamp: int) -> bool {
    &&& item.id@ == item_id(o, n, stamp)
    &&& item.content@ == item_content(o, n)
    &&& item.image_url@ == image_url_for(item.id@)
}

fn id_tag_str(o: Origin) -> (r: &'static str)
    ensures
        r@ == id_tag(o),
{
    match o {
        Origin::Older => "older_",
        Origin::Newer => "newer_",
        Origin::Auto => "auto_",
    }
}

fn content_head_str(o: Origin) -> (r: &'static str)
    ensures
        r@ == content_parts(o).0,
{
    match o {
        Origin::Older => "Older content item ",
        Origin::Newer => "Newer content item ",
        Origin::Auto => "Auto-generated item ",
    }
}

fn content_tail_str(o: Origin) -> (r: &'static str)
    ensures
        r@ == content_parts(o).1,
{
    match o {
        Origin::Older => " - loaded from top",
        Origin::Newer => " - loaded from bottom",
        Origin::Auto => " - real-time update",
    }
}

/// The generated item number `n` of origin `o`, made at time `stamp`.
pub fn generated_item(o: Origin, n: u64, stamp: i64) -> (r: VirtualFeedItem)
    ensures
        is_generated(r, o, n as nat, stamp as int),
{
    let number = decimal_string(n);
    let id = String::from_str(id_tag_str(o)).concat(number.as_str()).concat("_").concat(
        signed_decimal_string(stamp).as_str(),
    );
    let content = String::from_str(content_head_str(o)).concat(number.as_str()).concat(
        content_tail_str(o),
    );
    VirtualFeedItem::new_with_random_image(id, content)
}

/// The generated items numbered `first .. first + count`, in that order.
pub fn generated_batch(o: Origin, first: u64, count: u64, stamp: i64) -> (r: Vec<VirtualFeedItem>)
    requires
        first + count <= u64::MAX,
    ensures
        r@.len() == count,
        forall|i: int| 0 <= i < count ==> is_generated(#[trigger] r@[i], o, (first + i) as nat, stamp as int),
{
    let mut r: Vec<VirtualFeedItem> = Vec::new();
    let mut k: u64 = 0;
    while k < count
        invariant
            k <= count,
            first + count <= u64::MAX,
            r@.len() == k,
            forall|i: int| 0 <= i < k ==> is_generated(#[trigger] r@[i], o, (first + i) as nat, stamp as int),
        decreases count - k,
    {
        r.push(generated_item(o, first + k, stamp));
        k = k + 1;
    }
    r
}

/// Whether `b` is the batch of `count` generated items of origin `o`
/// numbered from `first`, made at time `stamp`.
pub open spec fn is_generated_batch(b: Seq<VirtualFeedItem>, o: Origin, first: nat, count: nat, stamp: int) -> bool {
    &&& b.len() == count
    &&& forall|i: int| 0 <= i < count ==> is_generated(#[trigger] b[i], o, first + i as nat, stamp)
}

/// Whether `s` begins with `p`.
pub open spec fn begins_with(s: Seq<char>, p: Seq<char>) -> bool {
    s.len() >= p.len() && s.subrange(0, p.len() as int) == p
}

/// Whether `id` begins like the id of a generated item.
pub open spec fn has_generated_tag(id: Seq<char>) -> bool {
    begins_with(id, "older_"@) || begins_with(id, "newer_"@) || begins_with(id, "auto_"@)
}

/// Whether `id` begins like the id of a generated item.
pub fn has_generated_tag_text(id: &str) -> (r: bool)
    ensures
        r == has_generated_tag(id@),
{
    starts_with_text(id, "older_") || starts_with_text(id, "newer_") || starts_with_text(id, "auto_")
}

/// Whether `id` is the id of a generated item numbered `next` or later.
pub open spec fn is_future_id(id: Seq<char>, next: nat) -> bool {
    exists|o: Origin, n: nat, stamp: int| n >= next && #[trigger] item_id(o, n, stamp) == id
}

proof fn lemma_digit_chars()
    ensures
        forall|d: nat| d < 10 ==> #[trigger] digit_char(d) != '_',
        forall|d: nat, e: nat| d < 10 && e < 10 && #[trigger] digit_char(d) == #[trigger] digit_char(e) ==> d == e,
{
    assert(digit_char(0) == '0' && digit_char(1) == '1' && digit_char(2) == '2' && digit_char(3) == '3'
        && digit_char(4) == '4' && digit_char(5) == '5' && digit_char(6) == '6' && digit_char(7) == '7'
        && digit_char(8) == '8' && digit_char(9) == '9');
    assert forall|d: nat| d < 10 implies #[trigger] digit_char(d) != '_' by {
        assert(d == 0 || d == 1 || d == 2 || d == 3 || d == 4 || d == 5 || d == 6 || d == 7 || d == 8 || d == 9);
    }
    assert forall|d: nat, e: nat| d < 10 && e < 10 && #[trigger] digit_char(d) == #[trigger] digit_char(e) implies d == e by {
        assert(d == 0 || d == 1 || d == 2 || d == 3 || d == 4 || d == 5 || d == 6 || d == 7 || d == 8 || d == 9);
        assert(e == 0 || e == 1 || e == 2 || e == 3 || e == 4 || e == 5 || e == 6 || e == 7 || e == 8 || e == 9);
    }
}

/// Decimal notation is made of digits: no `_`, at least one character,
/// at least two from 10 on.
proof fn lemma_decimal_shape(n: nat)
    ensures
        decimal(n).len() >= 1,
        n >= 10 ==> decimal(n).len() >= 2,
        forall|i: int| 0 <= i < decimal(n).len() ==> #[trigger] decimal(n)[i] != '_',
    decreases n,
{
    lemma_digit_chars();
    if n >= 10 {
        lemma_decimal_shape(n / 10);
        let d = decimal(n);
        assert forall|i: int| 0 <= i < d.len() implies #[trigger] d[i] != '_' by {
            if i < d.len() - 1 {
                assert(d[i] == decimal(n / 10)[i]);
            }
        }
    }
}

/// Distinct numbers have distinct decimal notations.
proof fn lemma_decimal_injective(a: nat, b: nat)
    requires
        decimal(a) == decimal(b),
    ensures
        a == b,
    decreases a,
{
    lemma_digit_chars();
    lemma_decimal_shape(a);
    lemma_decimal_shape(b);
    if a < 10 && b < 10 {
        assert(decimal(a)[0] == digit_char(a));
        assert(decimal(b)[0] == digit_char(b));
    } else if a >= 10 && b >= 10 {
        let da = decimal(a);
        assert(da.drop_last() =~= decimal(a / 10));
        assert(decimal(b).drop_last() =~= decimal(b / 10));
        assert(da.last() == digit_char(a % 10));
        assert(decimal(b).last() == digit_char(b % 10));
        lemma_decimal_injective(a / 10, b / 10);
    }
}

/// What precedes the first `_` is the same in two equal texts.
proof fn lemma_split_at_underscore(d1: Seq<char>, r1: Seq<char>, d2: Seq<char>, r2: Seq<char>)
    requires
        forall|i: int| 0 <= i < d1.len() ==> #[trigger] d1[i] != '_',
        forall|i: int| 0 <= i < d2.len() ==> #[trigger] d2[i] != '_',
        d1 + seq!['_'] + r1 == d2 + seq!['_'] + r2,
    ensures
        d1 == d2,
{
    let x = d1 + seq!['_'] + r1;
    let y = d2 + seq!['_'] + r2;
    if d1.len() < d2.len() {
        assert(x[d1.len() as int] == '_');
        assert(y[d1.len() as int] == d2[d1.len() as int]);
    } else if d2.len() < d1.len() {
        assert(y[d2.len() as int] == '_');
        assert(x[d2.len() as int] == d1[d2.len() as int]);
    } else {
        assert(d1 =~= x.subrange(0, d1.len() as int));
        assert(d2 =~= y.subrange(0, d2.len() as int));
    }
}

/// A generated id tells its origin and number.
pub proof fn lemma_item_id_injective(o1: Origin, n1: nat, s1: int, o2: Origin, n2: nat, s2: int)
    requires
        item_id(o1, n1, s1) == item_id(o2, n2, s2),
    ensures
        o1 == o2,
        n1 == n2,
{
    reveal_strlit("older_");
    reveal_strlit("newer_");
    reveal_strlit("auto_");
    reveal_strlit("_");
    let x = item_id(o1, n1, s1);
    assert(x[0] == id_tag(o1)[0]);
    assert(item_id(o2, n2, s2)[0] == id_tag(o2)[0]);
    let k = id_tag(o1).len() as int;
    lemma_decimal_shape(n1);
    lemma_decimal_shape(n2);
    assert(x.subrange(k, x.len() as int) =~= decimal(n1) + seq!['_'] + signed_decimal(s1));
    assert(x.subrange(k, x.len() as int) =~= decimal(n2) + seq!['_'] + signed_decimal(s2));
    lemma_split_at_underscore(decimal(n1), signed_decimal(s1), decimal(n2), signed_decimal(s2));
    lemma_decimal_injective(n1, n2);
}

/// A generated id carries a generated tag.
pub proof fn lemma_item_id_tagged(o: Origin, n: nat, stamp: int)
    ensures
        has_generated_tag(item_id(o, n, stamp)),
{
    reveal_strlit("older_");
    reveal_strlit("newer_");
    reveal_strlit("auto_");
    let x = item_id(o, n, stamp);
    assert(x.subrange(0, id_tag(o).len() as int) =~= id_tag(o));
}

/// An id without a generated tag is no future generated id.
pub proof fn lemma_untagged_not_future(id: Seq<char>, next: nat)
    requires
        !has_generated_tag(id),
    ensures
        !is_future_id(id, next),
{
    if is_future_id(id, next) {
        let (o, n, s) = choose|o: Origin, n: nat, s: int| n >= next && #[trigger] item_id(o, n, s) == id;
        lemma_item_id_tagged(o, n, s);
    }
}

/// The id of an item numbered below `next` is no future generated id.
pub proof fn lemma_numbered_not_future(o: Origin, n: nat, stamp: int, next: nat)
    requires
        n < next,
    ensures
        !is_future_id(item_id(o, n, stamp), next),
{
    if is_future_id(item_id(o, n, stamp), next) {
        let (o2, n2, s2) = choose|o2: Origin, n2: nat, s2: int| n2 >= next && #[trigger] item_id(o2, n2, s2) == item_id(o, n, stamp);
        lemma_item_id_injective(o, n, stamp, o2, n2, s2);
    }
}

} // verus!
