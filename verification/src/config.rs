//! Choosing the framebuffer configuration.
use vstd::prelude::*;

verus! {

/// What the choice of a configuration looks at.
#[derive(Debug, Clone, Copy, PartialEq, Eq, Structural)]
pub struct ConfigInfo {
    /// Whether surfaces of the configuration can be transparent, where that is known.
    pub supports_transparency: Option<bool>,
    /// The number of samples of the multisample buffer.
    pub num_samples: u8,
}

impl ConfigInfo {
    /// The configuration is known to support transparency.
    pub open spec fn transparent(self) -> bool {
        self.supports_transparency == Some(true)
    }

    /// `self` takes the place of `accum`, the best configuration so far.
    pub open spec fn replaces(self, accum: ConfigInfo) -> bool {
        (self.transparent() && !accum.transparent()) || self.num_samples > accum.num_samples
    }
}

/// The index of the configuration that is left when each one in turn has had
/// the chance to replace the best one before it.
pub open spec fn picked_index(infos: Seq<ConfigInfo>) -> int
    decreases infos.len(),
{
    if infos.len() <= 1 {
        0
    } else {
        let accum = picked_index(infos.drop_last());
        if infos.last().replaces(infos[accum]) {
            infos.len() - 1
        } else {
            accum
        }
    }
}

proof fn lemma_picked_index_in_range(infos: Seq<ConfigInfo>)
    requires
        infos.len() > 0,
    ensures
        0 <= picked_index(infos) < infos.len(),
    decreases infos.len(),
{
    if infos.len() > 1 {
        lemma_picked_index_in_range(infos.drop_last());
    }
}

/// Picks one of the configurations that `infos` describes, by its index.
pub fn pick_config(infos: &Vec<ConfigInfo>) -> (picked: usize)
    requires
        infos@.len() > 0,
    ensures
        picked < infos@.len(),
        picked == picked_index(infos@),
{
    let mut accum: usize = 0;
    let mut next: usize = 1;
    while next < infos.len()
        invariant
            0 <= accum < next <= infos@.len(),
            accum == picked_index(infos@.take(next as int)),
        decreases infos@.len() - next,
    {
        let candidate = infos[next];
        let best = infos[accum];
        let transparency_check = candidate.supports_transparency.unwrap_or(false)
            && !best.supports_transparency.unwrap_or(false);
        assert(infos@.take(next + 1).drop_last() == infos@.take(next as int));
        if transparency_check || candidate.num_samples > best.num_samples {
            accum = next;
        }
        next = next + 1;
    }
    assert(infos@.take(next as int) == infos@);
    accum
}

/// Picks one of the display's configurations, by [`pick_config`] on what `ask`
/// says of each. A single configuration is picked unasked.
pub fn gl_config_picker<C, A: Fn(&C) -> ConfigInfo>(configs: Vec<C>, ask: A) -> (picked: C)
    requires
        configs@.len() > 0,
        forall|i: int| 0 <= i < configs@.len() ==> call_requires(ask, (&#[trigger] configs@[i],)),
    ensures
        configs@.len() == 1 ==> picked == configs@[0],
        configs@.len() > 1 ==> exists|infos: Seq<ConfigInfo>|
            {
                &&& infos.len() == configs@.len()
                &&& forall|i: int|
                    0 <= i < infos.len() ==> call_ensures(ask, (&configs@[i],), #[trigger] infos[i])
                &&& picked == configs@[#[trigger] picked_index(infos)]
            },
{
    let mut configs = configs;
    if configs.len() == 1 {
        return configs.swap_remove(0);
    }
    let mut infos: Vec<ConfigInfo> = Vec::new();
    let mut next: usize = 0;
    while next < configs.len()
        invariant
            next <= configs@.len(),
            infos@.len() == next,
            forall|i: int|
                0 <= i < configs@.len() ==> call_requires(ask, (&#[trigger] configs@[i],)),
            forall|i: int| 0 <= i < next ==> call_ensures(ask, (&configs@[i],), #[trigger] infos@[i]),
        decreases configs@.len() - next,
    {
        infos.push(ask(&configs[next]));
        next = next + 1;
    }
    let picked = pick_config(&infos);
    configs.swap_remove(picked)
}

/// `infos[i]` has as many samples as any other.
pub open spec fn is_smoothest(infos: Seq<ConfigInfo>, i: int) -> bool {
    &&& 0 <= i < infos.len()
    &&& forall|j: int|
        0 <= j < infos.len() ==> (#[trigger] infos[j]).num_samples <= infos[i].num_samples
}

/// Some configuration with the maximum number of samples is transparent.
pub open spec fn smoothest_is_transparent(infos: Seq<ConfigInfo>) -> bool {
    exists|i: int| #[trigger] is_smoothest(infos, i) && infos[i].transparent()
}

/// A transparent configuration follows every one with the maximum number of samples.
pub open spec fn transparent_comes_last(infos: Seq<ConfigInfo>) -> bool {
    exists|t: int|
        0 <= t < infos.len() && (#[trigger] infos[t]).transparent() && (forall|i: int|
            is_smoothest(infos, i) ==> i < t)
}

/// The picked configuration has the maximum number of samples, except where all
/// that have it are opaque and a transparent one comes after them.
pub proof fn picked_is_smoothest(infos: Seq<ConfigInfo>)
    requires
        infos.len() > 0,
    ensures
        is_smoothest(infos, picked_index(infos)) <==> smoothest_is_transparent(infos)
            || !transparent_comes_last(infos),
        smoothest_is_transparent(infos) ==> infos[picked_index(infos)].transparent(),
    decreases infos.len(),
{
    lemma_picked_index_in_range(infos);
    let picked = picked_index(infos);
    if infos.len() == 1 {
        assert(is_smoothest(infos, 0));
    } else {
        let before = infos.drop_last();
        let accum = picked_index(before);
        let last = infos.len() - 1;
        lemma_picked_index_in_range(before);
        picked_is_smoothest(before);
        let top = lemma_some_is_smoothest(before);
        assert(forall|j: int| 0 <= j < last ==> infos[j] == before[j]);
        if infos[last].num_samples >= infos[top].num_samples {
            assert(is_smoothest(infos, last));
            assert(infos[accum].num_samples <= infos[top].num_samples);
            assert(is_smoothest(infos, picked));
            assert(!transparent_comes_last(infos));
            if smoothest_is_transparent(infos) {
                let i = choose|i: int| #[trigger]
                    is_smoothest(infos, i) && infos[i].transparent();
                if i < last {
                    assert(is_smoothest(before, i));
                }
            }
        } else {
            assert forall|i: int| is_smoothest(infos, i) <==> is_smoothest(before, i) by {
                if is_smoothest(infos, i) {
                    assert(infos[top].num_samples <= infos[i].num_samples);
                    assert(is_smoothest(before, i));
                }
                if is_smoothest(before, i) {
                    assert(before[top].num_samples <= before[i].num_samples);
                    assert(is_smoothest(infos, i));
                }
            }
            if smoothest_is_transparent(infos) {
                let i = choose|i: int| #[trigger]
                    is_smoothest(infos, i) && infos[i].transparent();
                assert(is_smoothest(before, i));
            }
            if smoothest_is_transparent(before) {
                let i = choose|i: int| #[trigger]
                    is_smoothest(before, i) && before[i].transparent();
                assert(is_smoothest(infos, i));
            }
            if infos[last].transparent() {
                assert(transparent_comes_last(infos));
            } else {
                if transparent_comes_last(before) {
                    let t = choose|t: int|
                        0 <= t < before.len() && (#[trigger] before[t]).transparent() && (forall|
                            i: int,
                        |
                            is_smoothest(before, i) ==> i < t);
                    assert(infos[t].transparent());
                }
                if transparent_comes_last(infos) {
                    let t = choose|t: int|
                        0 <= t < infos.len() && (#[trigger] infos[t]).transparent() && (forall|
                            i: int,
                        |
                            is_smoothest(infos, i) ==> i < t);
                    assert(before[t].transparent());
                }
            }
        }
    }
}

proof fn lemma_some_is_smoothest(infos: Seq<ConfigInfo>) -> (top: int)
    requires
        infos.len() > 0,
    ensures
        is_smoothest(infos, top),
    decreases infos.len(),
{
    let last = infos.len() - 1;
    if infos.len() == 1 {
        last
    } else {
        let before = infos.drop_last();
        let top = lemma_some_is_smoothest(before);
        assert(forall|j: int| 0 <= j < last ==> infos[j] == before[j]);
        if infos[last].num_samples > infos[top].num_samples {
            last
        } else {
            top
        }
    }
}

/// Among configurations with the same number of samples the first transparent
/// one is picked, and the first of all where none is transparent.
pub proof fn picked_is_transparent(infos: Seq<ConfigInfo>)
    requires
        infos.len() > 0,
        forall|i: int, j: int|
            0 <= i < infos.len() && 0 <= j < infos.len() ==> (#[trigger] infos[i]).num_samples == (
            #[trigger] infos[j]).num_samples,
    ensures
        ({
            let picked = picked_index(infos);
            &&& 0 <= picked < infos.len()
            &&& forall|i: int| 0 <= i < picked ==> !(#[trigger] infos[i]).transparent()
            &&& infos[picked].transparent() || (picked == 0 && forall|i: int|
                0 <= i < infos.len() ==> !(#[trigger] infos[i]).transparent())
        }),
    decreases infos.len(),
{
    if infos.len() > 1 {
        let before = infos.drop_last();
        assert(forall|j: int| 0 <= j < before.len() ==> infos[j] == before[j]);
        picked_is_transparent(before);
    }
}

/// Where transparent configurations are offered, `last` the last of them, a
/// transparent one is picked, except where one that follows has more samples
/// than the pick of those up to `last`, which is itself transparent.
pub proof fn transparency_is_kept(infos: Seq<ConfigInfo>, last: int)
    requires
        0 <= last < infos.len(),
        infos[last].transparent(),
        forall|i: int| last < i < infos.len() ==> !(#[trigger] infos[i]).transparent(),
    ensures
        infos[picked_index(infos.take(last + 1))].transparent(),
        infos[picked_index(infos)].transparent() <==> forall|i: int|
            last < i < infos.len() ==> (#[trigger] infos[i]).num_samples <= infos[picked_index(
                infos.take(last + 1),
            )].num_samples,
        infos[picked_index(infos)].transparent() ==> picked_index(infos) == picked_index(
            infos.take(last + 1),
        ),
    decreases infos.len(),
{
    let before = infos.drop_last();
    let end = infos.len() - 1;
    assert(forall|i: int| 0 <= i < end ==> infos[i] == before[i]);
    if last == end {
        assert(infos.take(last + 1) == infos);
        if infos.len() > 1 {
            lemma_picked_index_in_range(before);
        }
    } else {
        let best = picked_index(infos.take(last + 1));
        lemma_picked_index_in_range(infos.take(last + 1));
        lemma_picked_index_in_range(before);
        assert(before.take(last + 1) == infos.take(last + 1));
        transparency_is_kept(before, last);
        if before[picked_index(before)].transparent() {
            assert(picked_index(before) == best);
        } else {
            let i = choose|i: int|
                last < i < before.len() && (#[trigger] before[i]).num_samples
                    > before[best].num_samples;
            assert(infos[i].num_samples > infos[best].num_samples);
        }
    }
}

/// Among configurations that are all transparent, or none, the first one with
/// the maximum number of samples is picked.
pub proof fn picked_is_first_smoothest(infos: Seq<ConfigInfo>)
    requires
        infos.len() > 0,
        forall|i: int, j: int|
            0 <= i < infos.len() && 0 <= j < infos.len() ==> (#[trigger] infos[i]).transparent()
                == (#[trigger] infos[j]).transparent(),
    ensures
        is_smoothest(infos, picked_index(infos)),
        forall|i: int| 0 <= i < picked_index(infos) ==> !is_smoothest(infos, i),
    decreases infos.len(),
{
    if infos.len() > 1 {
        let before = infos.drop_last();
        let last = infos.len() - 1;
        assert(forall|j: int| 0 <= j < last ==> infos[j] == before[j]);
        picked_is_first_smoothest(before);
        assert forall|i: int| 0 <= i < picked_index(infos) implies !is_smoothest(infos, i) by {
            if is_smoothest(infos, i) {
                assert(is_smoothest(before, i));
                assert(infos[last].num_samples <= infos[i].num_samples);
            }
        }
    }
}

/// A single configuration is picked.
pub proof fn only_configuration_is_picked(infos: Seq<ConfigInfo>)
    requires
        infos.len() == 1,
    ensures
        picked_index(infos) == 0,
{
}

/// Each configuration takes the place of the pick of those before it if it is
/// transparent and that pick is not, or if it has more samples than that pick.
/// Otherwise the pick stays.
pub proof fn each_configuration_has_its_chance(infos: Seq<ConfigInfo>, i: int)
    requires
        0 < i < infos.len(),
    ensures
        ({
            let best = picked_index(infos.take(i));
            let transparency_gained = infos[i].supports_transparency == Some(true)
                && infos[best].supports_transparency != Some(true);
            let samples_gained = infos[i].num_samples > infos[best].num_samples;
            &&& 0 <= best < i
            &&& transparency_gained ==> picked_index(infos.take(i + 1)) == i
            &&& samples_gained ==> picked_index(infos.take(i + 1)) == i
            &&& !transparency_gained && !samples_gained ==> picked_index(infos.take(i + 1)) == best
        }),
{
    lemma_picked_index_in_range(infos.take(i));
    assert(infos.take(i + 1).drop_last() == infos.take(i));
}

/// No configuration after the pick has more samples, and none is transparent
/// unless the pick is.
pub proof fn nothing_after_the_pick_is_better(infos: Seq<ConfigInfo>)
    requires
        infos.len() > 0,
    ensures
        0 <= picked_index(infos) < infos.len(),
        forall|i: int|
            picked_index(infos) < i < infos.len() ==> (#[trigger] infos[i]).num_samples
                <= infos[picked_index(infos)].num_samples && (infos[i].supports_transparency
                == Some(true) ==> infos[picked_index(infos)].supports_transparency == Some(true)),
    decreases infos.len(),
{
    if infos.len() > 1 {
        let before = infos.drop_last();
        nothing_after_the_pick_is_better(before);
        assert(forall|i: int| 0 <= i < before.len() ==> infos[i] == before[i]);
    }
}

/// Where all configurations from `start` on are transparent, the pick is
/// transparent and has as many samples as any of them.
pub proof fn transparent_end_is_outdone_by_none(infos: Seq<ConfigInfo>, start: int)
    requires
        0 <= start < infos.len(),
        forall|i: int|
            start <= i < infos.len() ==> (#[trigger] infos[i]).supports_transparency == Some(true),
    ensures
        infos[picked_index(infos)].supports_transparency == Some(true),
        forall|i: int|
            start <= i < infos.len() ==> (#[trigger] infos[i]).num_samples
                <= infos[picked_index(infos)].num_samples,
    decreases infos.len(),
{
    if infos.len() > 1 {
        let before = infos.drop_last();
        lemma_picked_index_in_range(before);
        assert(forall|i: int| 0 <= i < before.len() ==> infos[i] == before[i]);
        if start < before.len() {
            transparent_end_is_outdone_by_none(before, start);
        }
    }
}

} // verus!
