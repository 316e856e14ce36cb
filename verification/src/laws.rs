//! Properties of the translation that relate several of its parts:
//! stage/pass correspondence, the reversed chain order, camera
//! deduplication, channel naming, the shape of every filter's fragment
//! shader list, and determinism.

use vstd::prelude::*;

use crate::names::decimal_str;
use crate::names::header_path_spec;
use crate::names::uniform_name_spec;
use crate::source::pass_names_unique;
use crate::source::pass_uses_webcam;
use crate::source::uses_webcam;
use crate::source::PassView;
use crate::source::ShaderView;
use crate::translate::expected_chain;
use crate::translate::expected_filters;
use crate::translate::expected_inputs;
use crate::translate::expected_translation;
use crate::translate::filter_of_pass;
use crate::translate::stage_bindings;
use crate::translate::stage_of_pass;
use crate::translate::webcam_entry;
use crate::translate::TranslationV;
use crate::target::RenderStageV;

verus! {

/// The names of a sequence of render stages, as a set.
pub open spec fn stage_name_set(stages: Seq<RenderStageV>) -> Set<Seq<char>> {
    Set::new(|nm: Seq<char>| exists|k: int| 0 <= k < stages.len() && (#[trigger] stages[k]).name == nm)
}

/// The names of a sequence of passes, as a set.
pub open spec fn pass_name_set(passes: Seq<PassView>) -> Set<Seq<char>> {
    Set::new(|nm: Seq<char>| exists|i: int| 0 <= i < passes.len() && (#[trigger] passes[i]).name == nm)
}

/// Law: a translatable project of `n` passes yields exactly `n - 1` chain
/// stages plus one final stage, and the chain stages' names together with
/// the final stage's name are exactly the pass names.
pub proof fn lemma_stages_cover_passes(passes: Seq<PassView>)
    requires
        passes.len() > 0,
    ensures
        expected_chain(passes).len() == passes.len() - 1,
        stage_name_set(expected_chain(passes)).insert(stage_of_pass(passes.last()).name)
            =~= pass_name_set(passes),
{
    let n = passes.len() as int;
    let chain = expected_chain(passes);
    let covered = stage_name_set(chain).insert(stage_of_pass(passes.last()).name);
    assert forall|nm: Seq<char>| covered.contains(nm) implies pass_name_set(passes).contains(
        nm,
    ) by {
        if nm == stage_of_pass(passes.last()).name {
            assert(passes[n - 1].name == nm);
        } else {
            let k = choose|k: int| 0 <= k < chain.len() && (#[trigger] chain[k]).name == nm;
            assert(chain[k] == stage_of_pass(passes[n - 2 - k]));
            assert(passes[n - 2 - k].name == nm);
        }
    }
    assert forall|nm: Seq<char>| pass_name_set(passes).contains(nm) implies covered.contains(
        nm,
    ) by {
        let i = choose|i: int| 0 <= i < n && (#[trigger] passes[i]).name == nm;
        if i == n - 1 {
            assert(stage_of_pass(passes.last()).name == nm);
        } else {
            let k = n - 2 - i;
            assert(chain[k] == stage_of_pass(passes[n - 2 - k]));
            assert(chain[k].name == nm);
            assert(stage_name_set(chain).contains(nm));
        }
    }
}

/// Law: when pass names are pairwise distinct, so are the names of the
/// translated stages — no two chain stages share a name, and no chain
/// stage shares the final stage's name. Together with
/// `lemma_stages_cover_passes` this makes the stage/pass correspondence
/// one-to-one.
pub proof fn lemma_stage_names_distinct(passes: Seq<PassView>, k1: int, k2: int)
    requires
        passes.len() > 0,
        pass_names_unique(passes),
        0 <= k1 < k2 < passes.len() - 1,
    ensures
        expected_chain(passes)[k1].name != expected_chain(passes)[k2].name,
        expected_chain(passes)[k1].name != stage_of_pass(passes.last()).name,
{
    let n = passes.len() as int;
    assert(expected_chain(passes)[k1] == stage_of_pass(passes[n - 2 - k1]));
    assert(expected_chain(passes)[k2] == stage_of_pass(passes[n - 2 - k2]));
    assert(passes[n - 2 - k2].name != passes[n - 2 - k1].name);
    assert(passes[n - 2 - k1].name != passes[n - 1].name);
}

/// Law: the chain is the declared order of the non-final passes,
/// reversed. The stage at chain position `k` comes from the pass declared
/// at position `n - 2 - k`; in particular the pass declared just before
/// the final one leads the chain, and the first declared pass ends it.
pub proof fn lemma_chain_order_reversed(passes: Seq<PassView>, k: int)
    requires
        passes.len() > 0,
        0 <= k < passes.len() - 1,
    ensures
        expected_chain(passes)[k] == stage_of_pass(passes[passes.len() - 2 - k]),
{
}

/// Law: however many passes reference the camera — in particular two
/// distinct ones — the input table holds exactly one entry, named
/// "webcam".
pub proof fn lemma_webcam_deduplicated(passes: Seq<PassView>, i: int, j: int)
    requires
        0 <= i < passes.len(),
        0 <= j < passes.len(),
        pass_uses_webcam(passes[i]),
        pass_uses_webcam(passes[j]),
    ensures
        expected_inputs(passes).len() == 1,
        expected_inputs(passes)[0] == webcam_entry(),
{
    assert(uses_webcam(passes));
}

/// Law: the input at channel slot 3 of any pass is bound through the
/// uniform named exactly "iChannel3".
pub proof fn lemma_channel_three_uniform(p: PassView)
    requires
        p.inputs.len() > 3,
    ensures
        stage_bindings(p)[3].uniform =~= "iChannel3"@,
        stage_of_pass(p).inputs[3].uniform =~= "iChannel3"@,
{
    reveal_strlit("iChannel");
    reveal_strlit("iChannel3");
    assert(decimal_str(3) =~= seq!['3']);
    assert(stage_bindings(p)[3].uniform == uniform_name_spec(3));
}

/// Law: every filter's fragment shader list has length two, and its first
/// element is always the shared header path.
pub proof fn lemma_fragment_shader_shape(passes: Seq<PassView>, i: int)
    requires
        0 <= i < passes.len(),
    ensures
        expected_filters(passes)[i].fragment_shader.len() == 2,
        expected_filters(passes)[i].fragment_shader[0] == header_path_spec(),
{
    assert(expected_filters(passes)[i] == filter_of_pass(passes[i]));
}

/// Law: translation is deterministic. Two translation results of the
/// same source document are the same value, field for field.
pub proof fn lemma_translation_deterministic(src: ShaderView, t1: TranslationV, t2: TranslationV)
    requires
        t1 == expected_translation(src),
        t2 == expected_translation(src),
    ensures
        t1 == t2,
{
}

} // verus!
