use crate::chinese::{rendering, Chinese, ChineseFormat, ChineseView, Variant};
use vstd::prelude::*;

verus! {

/// The renderings of the given items, in order, all in the same script.
pub open spec fn rendered<T: ChineseFormat>(items: Seq<T>, variant: Variant) -> Seq<ChineseView> {
    items.map_values(|item: T| item.spec_chinese(variant))
}

/// The sequence without its longest prefix of omissible expressions.
pub open spec fn trimmed_start(s: Seq<ChineseView>) -> Seq<ChineseView>
    decreases s.len(),
{
    if s.len() > 0 && s[0].omissible {
        trimmed_start(s.drop_first())
    } else {
        s
    }
}

/// The sequence without its longest suffix of omissible expressions.
pub open spec fn trimmed_end(s: Seq<ChineseView>) -> Seq<ChineseView>
    decreases s.len(),
{
    if s.len() > 0 && s.last().omissible {
        trimmed_end(s.drop_last())
    } else {
        s
    }
}

/// The logograms of all the expressions, concatenated in order.
pub open spec fn joined(s: Seq<ChineseView>) -> Seq<char>
    decreases s.len(),
{
    if s.len() == 0 {
        Seq::empty()
    } else {
        joined(s.drop_last()) + s.last().logograms
    }
}

/// Whether every expression is omissible (vacuously true when there is none).
pub open spec fn all_omissible(s: Seq<ChineseView>) -> bool {
    forall|i: int| 0 <= i < s.len() ==> #[trigger] s[i].omissible
}

/// The single expression that a sequence folds into.
pub open spec fn collected(s: Seq<ChineseView>) -> ChineseView {
    rendering(joined(s), all_omissible(s))
}

/// The models of a sequence of expressions.
pub open spec fn views(s: Seq<Chinese>) -> Seq<ChineseView> {
    s.map_values(|c: Chinese| c@)
}

/// An ordered sequence of already rendered [Chinese] expressions.
pub struct ChineseVec(Vec<Chinese>);

impl View for ChineseVec {
    type V = Seq<ChineseView>;

    closed spec fn view(&self) -> Seq<ChineseView> {
        views(self.0@)
    }
}

/// Copies the items `from..to` of `items`, keeping their models.
fn copy_range(items: &Vec<Chinese>, from: usize, to: usize) -> (r: Vec<Chinese>)
    requires
        from <= to <= items.len(),
    ensures
        views(r@) == views(items@).subrange(
            from as int,
            to as int,
        ),
{
    let mut out: Vec<Chinese> = Vec::new();
    let mut j: usize = from;
    while j < to
        invariant
            from <= j <= to <= items.len(),
            views(out@) == views(items@).subrange(
                from as int,
                j as int,
            ),
        decreases to - j,
    {
        let c = items[j].duplicate();
        let ghost before = out@;
        out.push(c);
        assert(out@ == before.push(c));
        assert(views(out@) =~= views(before).push(c@));
        assert(views(items@).subrange(from as int, j + 1) =~= views(items@).subrange(
            from as int,
            j as int,
        ).push(c@));
        j += 1;
        assert(views(out@) =~= views(items@).subrange(
            from as int,
            j as int,
        ));
    }
    out
}

impl ChineseVec {
    /// Wraps already rendered expressions, in order.
    pub fn new(items: Vec<Chinese>) -> (r: ChineseVec)
        ensures
            r@ == views(items@),
    {
        ChineseVec(items)
    }

    /// Renders each item in the given script, eagerly and in order.
    pub fn from<T: ChineseFormat>(variant: Variant, source: &[T]) -> (r: ChineseVec)
        ensures
            r@ == rendered(source@, variant),
    {
        let mut items: Vec<Chinese> = Vec::new();
        let mut i: usize = 0;
        while i < source.len()
            invariant
                i <= source@.len(),
                views(items@) == rendered(source@.take(i as int), variant),
            decreases source@.len() - i,
        {
            let c = source[i].to_chinese(variant);
            let ghost before = items@;
            items.push(c);
            assert(items@ == before.push(c));
            assert(views(items@) =~= views(before).push(c@));
            assert(rendered(source@.take(i + 1), variant) =~= rendered(
                source@.take(i as int),
                variant,
            ).push(source@[i as int].spec_chinese(variant)));
            i += 1;
            assert(views(items@) =~= rendered(
                source@.take(i as int),
                variant,
            ));
        }
        assert(source@.take(i as int) =~= source@);
        ChineseVec(items)
    }

    /// The expressions, in order.
    pub fn items(&self) -> (r: Vec<Chinese>)
        ensures
            views(r@) == self@,
    {
        let r = copy_range(&self.0, 0, self.0.len());
        assert(self@.subrange(0, self@.len() as int) =~= self@);
        r
    }

    /// Removes the longest prefix of omissible expressions.
    pub fn trim_start(&self) -> (r: ChineseVec)
        ensures
            r@ == trimmed_start(self@),
    {
        let n = self.0.len();
        let mut k: usize = 0;
        while k < n && self.0[k].omissible
            invariant
                k <= n == self.0.len(),
                forall|i: int| 0 <= i < k ==> #[trigger] self@[i].omissible,
            decreases n - k,
        {
            k += 1;
        }
        proof {
            lemma_trimmed_start_at(self@, k as int);
        }
        ChineseVec(copy_range(&self.0, k, n))
    }

    /// Removes the longest suffix of omissible expressions.
    pub fn trim_end(&self) -> (r: ChineseVec)
        ensures
            r@ == trimmed_end(self@),
    {
        let n = self.0.len();
        let mut k: usize = n;
        while k > 0 && self.0[k - 1].omissible
            invariant
                k <= n == self.0.len(),
                forall|i: int| k <= i < n ==> #[trigger] self@[i].omissible,
            decreases k,
        {
            k -= 1;
        }
        proof {
            lemma_trimmed_end_at(self@, k as int);
        }
        ChineseVec(copy_range(&self.0, 0, k))
    }

    /// Folds the sequence into one expression: the logograms concatenated in order,
    /// omissible when every expression is (in particular when there is none).
    pub fn collect(&self) -> (r: Chinese)
        ensures
            r@ == collected(self@),
    {
        let n = self.0.len();
        let mut logograms = String::new();
        let mut omissible = true;
        let mut i: usize = 0;
        while i < n
            invariant
                i <= n == self.0.len(),
                logograms@ == joined(self@.take(i as int)),
                omissible == all_omissible(self@.take(i as int)),
            decreases n - i,
        {
            let item = &self.0[i];
            logograms.append(item.logograms.as_str());
            omissible = omissible && item.omissible;
            proof {
                let prefix = self@.take(i + 1);
                assert(prefix.drop_last() =~= self@.take(i as int));
                assert(prefix.last() == self@[i as int]);
                assert(all_omissible(prefix) == (all_omissible(self@.take(i as int))
                    && self@[i as int].omissible));
            }
            i += 1;
        }
        assert(self@.take(n as int) =~= self@);
        Chinese { logograms, omissible }
    }
}

/// The vector renders as its collected expression, whatever the script.
impl ChineseFormat for ChineseVec {
    open spec fn spec_chinese(&self, variant: Variant) -> ChineseView {
        collected(self@)
    }

    fn to_chinese(&self, variant: Variant) -> (r: Chinese) {
        self.collect()
    }
}

/// Trimming the start drops exactly the omissible items before position `k`,
/// when the item at `k` (if any) is not omissible.
proof fn lemma_trimmed_start_at(s: Seq<ChineseView>, k: int)
    requires
        0 <= k <= s.len(),
        forall|i: int| 0 <= i < k ==> #[trigger] s[i].omissible,
        k < s.len() ==> !s[k].omissible,
    ensures
        trimmed_start(s) == s.subrange(k, s.len() as int),
    decreases k,
{
    if k == 0 {
        assert(s.subrange(0, s.len() as int) =~= s);
    } else {
        let t = s.drop_first();
        assert forall|i: int| 0 <= i < k - 1 implies #[trigger] t[i].omissible by {
            assert(s[i + 1].omissible);
        }
        lemma_trimmed_start_at(t, k - 1);
        assert(t.subrange(k - 1, t.len() as int) =~= s.subrange(k, s.len() as int));
    }
}

/// Trimming the end drops exactly the omissible items from position `k` on,
/// when the item before `k` (if any) is not omissible.
proof fn lemma_trimmed_end_at(s: Seq<ChineseView>, k: int)
    requires
        0 <= k <= s.len(),
        forall|i: int| k <= i < s.len() ==> #[trigger] s[i].omissible,
        k > 0 ==> !s[k - 1].omissible,
    ensures
        trimmed_end(s) == s.subrange(0, k),
    decreases s.len() - k,
{
    if k == s.len() {
        assert(s.subrange(0, k) =~= s);
    } else {
        let t = s.drop_last();
        assert forall|i: int| k <= i < t.len() implies #[trigger] t[i].omissible by {
            assert(s[i].omissible);
        }
        lemma_trimmed_end_at(t, k);
        assert(t.subrange(0, k) =~= s.subrange(0, k));
    }
}

/// Trimming the start twice is the same as trimming it once.
pub proof fn lemma_trim_start_idempotent(s: Seq<ChineseView>)
    ensures
        trimmed_start(trimmed_start(s)) == trimmed_start(s),
    decreases s.len(),
{
    if s.len() > 0 && s[0].omissible {
        lemma_trim_start_idempotent(s.drop_first());
    }
}

/// Trimming the end twice is the same as trimming it once.
pub proof fn lemma_trim_end_idempotent(s: Seq<ChineseView>)
    ensures
        trimmed_end(trimmed_end(s)) == trimmed_end(s),
    decreases s.len(),
{
    if s.len() > 0 && s.last().omissible {
        lemma_trim_end_idempotent(s.drop_last());
    }
}

/// Collecting an empty sequence gives the empty, omissible expression.
pub proof fn lemma_collect_empty()
    ensures
        collected(Seq::empty()) == rendering(Seq::empty(), true),
{
}

/// The collected expression is omissible exactly when every item is.
pub proof fn lemma_collect_omissible(s: Seq<ChineseView>)
    ensures
        collected(s).omissible <==> (forall|i: int| 0 <= i < s.len() ==> #[trigger] s[i].omissible),
{
}

/// Collecting a concatenation concatenates the collected logograms, and is omissible
/// exactly when both parts are.
pub proof fn lemma_collect_concat(a: Seq<ChineseView>, b: Seq<ChineseView>)
    ensures
        collected(a + b).logograms == collected(a).logograms + collected(b).logograms,
        collected(a + b).omissible == (collected(a).omissible && collected(b).omissible),
    decreases b.len(),
{
    if b.len() == 0 {
        assert(a + b =~= a);
        assert(joined(a) + Seq::<char>::empty() =~= joined(a));
    } else {
        assert((a + b).drop_last() =~= a + b.drop_last());
        assert((a + b).last() == b.last());
        lemma_collect_concat(a, b.drop_last());
        assert(joined(a) + (joined(b.drop_last()) + b.last().logograms) =~= (joined(a) + joined(
            b.drop_last(),
        )) + b.last().logograms);
    }
    assert(all_omissible(a + b) == (all_omissible(a) && all_omissible(b))) by {
        if all_omissible(a) && all_omissible(b) {
            assert forall|i: int| 0 <= i < (a + b).len() implies #[trigger] (a + b)[i].omissible by {
                if i < a.len() {
                    assert(a[i].omissible);
                } else {
                    assert(b[i - a.len()].omissible);
                }
            }
        }
        if all_omissible(a + b) {
            assert forall|i: int| 0 <= i < a.len() implies #[trigger] a[i].omissible by {
                assert((a + b)[i].omissible);
            }
            assert forall|i: int| 0 <= i < b.len() implies #[trigger] b[i].omissible by {
                assert((a + b)[a.len() + i].omissible);
            }
        }
    }
}

/// Collecting a single rendering gives that rendering back.
pub proof fn lemma_collect_single(c: ChineseView)
    ensures
        collected(seq![c]) == c,
{
    let single = seq![c];
    assert(single.drop_last() =~= Seq::<ChineseView>::empty());
    assert(joined(single) == joined(single.drop_last()) + c.logograms);
    assert(Seq::<char>::empty() + c.logograms =~= c.logograms);
    assert(all_omissible(single) == c.omissible) by {
        if c.omissible {
            assert forall|i: int| 0 <= i < single.len() implies #[trigger] single[i].omissible by {
                assert(single[i] == c);
            }
        } else {
            assert(!single[0].omissible);
        }
    }
}

/// Rendering a concatenation of items renders each part, in order.
pub proof fn lemma_rendered_concat<T: ChineseFormat>(a: Seq<T>, b: Seq<T>, variant: Variant)
    ensures
        rendered(a + b, variant) == rendered(a, variant) + rendered(b, variant),
{
    assert(rendered(a + b, variant) =~= rendered(a, variant) + rendered(b, variant));
}

/// Rendering items into a vector and collecting it gives the concatenation of each
/// item's own rendering, in order: appending an item appends its logograms, and the
/// result stays omissible only if that item is.
pub proof fn lemma_collect_rendered_push<T: ChineseFormat>(items: Seq<T>, item: T, variant: Variant)
    ensures
        collected(rendered(items.push(item), variant)).logograms == collected(
            rendered(items, variant),
        ).logograms + item.spec_chinese(variant).logograms,
        collected(rendered(items.push(item), variant)).omissible == (collected(
            rendered(items, variant),
        ).omissible && item.spec_chinese(variant).omissible),
{
    let single = seq![item.spec_chinese(variant)];
    assert(rendered(items.push(item), variant) =~= rendered(items, variant) + single);
    lemma_collect_concat(rendered(items, variant), single);
    assert(single.drop_last() =~= Seq::<ChineseView>::empty());
    assert(joined(Seq::<ChineseView>::empty()) == Seq::<char>::empty());
    assert(joined(single) == joined(single.drop_last()) + single.last().logograms);
    assert(Seq::<char>::empty() + item.spec_chinese(variant).logograms =~= item.spec_chinese(
        variant,
    ).logograms);
}

} // verus!
