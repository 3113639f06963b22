//! No two tensors of a block, a stack or a network share a path, so that a
//! list of parameters is a mapping from paths to shapes.

use vstd::prelude::*;
use crate::conv::BlockConfig;
use crate::depthwise::DepthWiseConfig;
use crate::head::HeadVariant;
use crate::linear::Linear;
use crate::model::ClassifierModel;
use crate::network::NetworkModel;
use crate::params::{
    block_params, classifier_params, conv_params, decimal, digit, head_params, linear_params,
    network_params, norm_params, stack_params, unit_params, unit_prefix, ParamModel,
};

verus! {

/// `path` begins with `prefix`.
pub open spec fn begins_with(path: Seq<char>, prefix: Seq<char>) -> bool {
    &&& prefix.len() <= path.len()
    &&& forall|k: int| 0 <= k < prefix.len() ==> path[k] == prefix[k]
}

/// The two prefixes part ways: at some position that both have, they hold
/// different characters.
pub open spec fn part_ways(a: Seq<char>, b: Seq<char>) -> bool {
    exists|k: int| 0 <= k < a.len() && k < b.len() && a[k] != b[k]
}

/// Every path of `params` begins with `prefix`.
pub open spec fn all_under(params: Seq<ParamModel>, prefix: Seq<char>) -> bool {
    forall|i: int| 0 <= i < params.len() ==> begins_with((#[trigger] params[i]).path, prefix)
}

/// No path of `params` begins with `prefix`.
pub open spec fn none_under(params: Seq<ParamModel>, prefix: Seq<char>) -> bool {
    forall|i: int| 0 <= i < params.len() ==> !begins_with((#[trigger] params[i]).path, prefix)
}

/// No two entries of `params` have the same path.
pub open spec fn paths_distinct(params: Seq<ParamModel>) -> bool {
    forall|i: int, j: int|
        0 <= i < j < params.len() ==> (#[trigger] params[i]).path != (#[trigger] params[j]).path
}

/// A path that continues a prefix begins with it.
pub proof fn continued_begins_with(prefix: Seq<char>, rest: Seq<char>)
    ensures
        begins_with(prefix + rest, prefix),
{
}

/// What begins with a longer prefix begins with the shorter one.
pub proof fn begins_with_shorter(path: Seq<char>, prefix: Seq<char>, rest: Seq<char>)
    requires
        begins_with(path, prefix + rest),
    ensures
        begins_with(path, prefix),
{
    assert forall|k: int| 0 <= k < prefix.len() implies path[k] == prefix[k] by {
        assert((prefix + rest)[k] == prefix[k]);
    }
}

/// Prefixes that part ways still do so behind a common front.
pub proof fn part_ways_behind(front: Seq<char>, a: Seq<char>, b: Seq<char>)
    requires
        part_ways(a, b),
    ensures
        part_ways(front + a, front + b),
{
    let k = choose|k: int| 0 <= k < a.len() && k < b.len() && a[k] != b[k];
    let shifted = front.len() + k;
    assert((front + a)[shifted] == a[k]);
    assert((front + b)[shifted] == b[k]);
}

/// A path under one of two prefixes that part ways is not under the other.
pub proof fn parted_excludes(path: Seq<char>, a: Seq<char>, b: Seq<char>)
    requires
        begins_with(path, a),
        part_ways(a, b),
    ensures
        !begins_with(path, b),
{
    let k = choose|k: int| 0 <= k < a.len() && k < b.len() && a[k] != b[k];
    assert(path[k] == a[k]);
}

/// Entries under one of two prefixes that part ways are not under the
/// other.
pub proof fn under_excludes(params: Seq<ParamModel>, a: Seq<char>, b: Seq<char>)
    requires
        all_under(params, a),
        part_ways(a, b),
    ensures
        none_under(params, b),
{
    assert forall|i: int| 0 <= i < params.len() implies !begins_with(
        (#[trigger] params[i]).path,
        b,
    ) by {
        parted_excludes(params[i].path, a, b);
    }
}

/// Two lists without repeated paths, of which the second lies under a
/// prefix that the first stays out of, make a list without repeated paths.
pub proof fn joined_paths_distinct(first: Seq<ParamModel>, second: Seq<ParamModel>, b: Seq<char>)
    requires
        paths_distinct(first),
        paths_distinct(second),
        none_under(first, b),
        all_under(second, b),
    ensures
        paths_distinct(first + second),
{
    let all = first + second;
    assert forall|i: int, j: int| 0 <= i < j < all.len() implies (#[trigger] all[i]).path != (
    #[trigger] all[j]).path by {
        if j < first.len() {
            assert(all[i] == first[i] && all[j] == first[j]);
        } else if i >= first.len() {
            assert(all[i] == second[i - first.len()] && all[j] == second[j - first.len()]);
        } else {
            assert(all[i] == first[i] && all[j] == second[j - first.len()]);
            assert(!begins_with(first[i].path, b));
            assert(begins_with(second[j - first.len()].path, b));
        }
    }
}

/// Two lists that stay out of a prefix make a list that stays out of it.
pub proof fn joined_none_under(first: Seq<ParamModel>, second: Seq<ParamModel>, b: Seq<char>)
    requires
        none_under(first, b),
        none_under(second, b),
    ensures
        none_under(first + second, b),
{
    let all = first + second;
    assert forall|i: int| 0 <= i < all.len() implies !begins_with((#[trigger] all[i]).path, b) by {
        if i < first.len() {
            assert(all[i] == first[i]);
        } else {
            assert(all[i] == second[i - first.len()]);
        }
    }
}

/// Two lists under a prefix make a list under it.
pub proof fn joined_all_under(first: Seq<ParamModel>, second: Seq<ParamModel>, a: Seq<char>)
    requires
        all_under(first, a),
        all_under(second, a),
    ensures
        all_under(first + second, a),
{
    let all = first + second;
    assert forall|i: int| 0 <= i < all.len() implies begins_with((#[trigger] all[i]).path, a) by {
        if i < first.len() {
            assert(all[i] == first[i]);
        } else {
            assert(all[i] == second[i - first.len()]);
        }
    }
}

/// Entries under a longer prefix are under the shorter one.
pub proof fn all_under_shorter(params: Seq<ParamModel>, prefix: Seq<char>, rest: Seq<char>)
    requires
        all_under(params, prefix + rest),
    ensures
        all_under(params, prefix),
{
    assert forall|i: int| 0 <= i < params.len() implies begins_with(
        (#[trigger] params[i]).path,
        prefix,
    ) by {
        begins_with_shorter(params[i].path, prefix, rest);
    }
}

/// Prefixes that hold different characters at position `k` part ways.
pub proof fn parts_at(a: Seq<char>, b: Seq<char>, k: int)
    requires
        0 <= k < a.len(),
        k < b.len(),
        a[k] != b[k],
    ensures
        part_ways(a, b),
        part_ways(b, a),
{
}

/// Names that part ways make different paths behind a common prefix.
pub proof fn names_differ(prefix: Seq<char>, a: Seq<char>, b: Seq<char>)
    requires
        part_ways(a, b),
    ensures
        prefix + a != prefix + b,
{
    part_ways_behind(prefix, a, b);
    let k = choose|k: int|
        0 <= k < (prefix + a).len() && k < (prefix + b).len() && (prefix + a)[k] != (prefix + b)[k];
    assert((prefix + a)[k] != (prefix + b)[k]);
}

/// The tensors of a convolution have different paths, all under the
/// prefix.
pub proof fn conv_paths_distinct(prefix: Seq<char>, config: BlockConfig)
    ensures
        paths_distinct(conv_params(prefix, config)),
        all_under(conv_params(prefix, config), prefix),
{
    reveal_strlit("weight");
    reveal_strlit("bias");
    parts_at("weight"@, "bias"@, 0);
    names_differ(prefix, "weight"@, "bias"@);
    continued_begins_with(prefix, "weight"@);
    continued_begins_with(prefix, "bias"@);
}

/// The tensors of a normalization have different paths, all under the
/// prefix.
pub proof fn norm_paths_distinct(prefix: Seq<char>, features: usize)
    ensures
        paths_distinct(norm_params(prefix, features)),
        all_under(norm_params(prefix, features), prefix),
{
    reveal_strlit("gamma");
    reveal_strlit("beta");
    reveal_strlit("running_mean");
    reveal_strlit("running_var");
    parts_at("gamma"@, "beta"@, 0);
    parts_at("gamma"@, "running_mean"@, 0);
    parts_at("gamma"@, "running_var"@, 0);
    parts_at("beta"@, "running_mean"@, 0);
    parts_at("beta"@, "running_var"@, 0);
    parts_at("running_mean"@, "running_var"@, 8);
    names_differ(prefix, "gamma"@, "beta"@);
    names_differ(prefix, "gamma"@, "running_mean"@);
    names_differ(prefix, "gamma"@, "running_var"@);
    names_differ(prefix, "beta"@, "running_mean"@);
    names_differ(prefix, "beta"@, "running_var"@);
    names_differ(prefix, "running_mean"@, "running_var"@);
    continued_begins_with(prefix, "gamma"@);
    continued_begins_with(prefix, "beta"@);
    continued_begins_with(prefix, "running_mean"@);
    continued_begins_with(prefix, "running_var"@);
}

/// The one tensor of a fully connected layer lies under the prefix.
pub proof fn linear_paths_distinct(prefix: Seq<char>, layer: Linear)
    ensures
        paths_distinct(linear_params(prefix, layer)),
        all_under(linear_params(prefix, layer), prefix),
{
    continued_begins_with(prefix, "weight"@);
}

/// Two groups of tensors, each without repeated paths and under its own
/// name behind a common prefix, make a list without repeated paths under
/// that prefix, provided the names part ways.
pub proof fn named_groups_distinct(
    prefix: Seq<char>,
    first: Seq<ParamModel>,
    a: Seq<char>,
    second: Seq<ParamModel>,
    b: Seq<char>,
)
    requires
        paths_distinct(first),
        all_under(first, prefix + a),
        paths_distinct(second),
        all_under(second, prefix + b),
        part_ways(a, b),
    ensures
        paths_distinct(first + second),
        all_under(first + second, prefix),
{
    part_ways_behind(prefix, a, b);
    under_excludes(first, prefix + a, prefix + b);
    joined_paths_distinct(first, second, prefix + b);
    all_under_shorter(first, prefix, a);
    all_under_shorter(second, prefix, b);
    joined_all_under(first, second, prefix);
}

/// The tensors of a convolution block have different paths, all under the
/// prefix.
pub proof fn block_paths_distinct(prefix: Seq<char>, config: BlockConfig)
    ensures
        paths_distinct(block_params(prefix, config)),
        all_under(block_params(prefix, config), prefix),
{
    reveal_strlit("conv.");
    reveal_strlit("norm.");
    parts_at("conv."@, "norm."@, 0);
    conv_paths_distinct(prefix + "conv."@, config);
    norm_paths_distinct(prefix + "norm."@, config.out_channels);
    named_groups_distinct(
        prefix,
        conv_params(prefix + "conv."@, config),
        "conv."@,
        norm_params(prefix + "norm."@, config.out_channels),
        "norm."@,
    );
}

/// The tensors of a depthwise-separable unit have different paths, all
/// under the prefix.
pub proof fn unit_paths_distinct(prefix: Seq<char>, unit: DepthWiseConfig)
    ensures
        paths_distinct(unit_params(prefix, unit)),
        all_under(unit_params(prefix, unit), prefix),
{
    reveal_strlit("conv.");
    reveal_strlit("conv_dw.");
    reveal_strlit("project.");
    parts_at("conv."@, "conv_dw."@, 4);
    parts_at("conv."@, "project."@, 0);
    parts_at("conv_dw."@, "project."@, 0);
    let first = block_params(prefix + "conv."@, unit.expand());
    let second = block_params(prefix + "conv_dw."@, unit.depthwise());
    let third = block_params(prefix + "project."@, unit.project());
    block_paths_distinct(prefix + "conv."@, unit.expand());
    block_paths_distinct(prefix + "conv_dw."@, unit.depthwise());
    block_paths_distinct(prefix + "project."@, unit.project());
    named_groups_distinct(prefix, first, "conv."@, second, "conv_dw."@);
    part_ways_behind(prefix, "conv."@, "project."@);
    part_ways_behind(prefix, "conv_dw."@, "project."@);
    under_excludes(first, prefix + "conv."@, prefix + "project."@);
    under_excludes(second, prefix + "conv_dw."@, prefix + "project."@);
    joined_none_under(first, second, prefix + "project."@);
    joined_paths_distinct(first + second, third, prefix + "project."@);
    all_under_shorter(third, prefix, "project."@);
    joined_all_under(first + second, third, prefix);
}

/// A digit is one character, and not a dot; different digits are different
/// characters.
pub proof fn digits_differ(d: nat, e: nat)
    requires
        d < 10,
        e < 10,
    ensures
        digit(d).len() == 1,
        digit(d)[0] != '.',
        d != e ==> digit(d)[0] != digit(e)[0],
{
    reveal_strlit("0");
    reveal_strlit("1");
    reveal_strlit("2");
    reveal_strlit("3");
    reveal_strlit("4");
    reveal_strlit("5");
    reveal_strlit("6");
    reveal_strlit("7");
    reveal_strlit("8");
    reveal_strlit("9");
}

/// A number in decimal has at least one character and no dot.
pub proof fn decimal_has_no_dot(n: nat)
    ensures
        decimal(n).len() >= 1,
        forall|k: int| 0 <= k < decimal(n).len() ==> decimal(n)[k] != '.',
        n >= 10 ==> decimal(n).len() >= 2,
    decreases n,
{
    if n < 10 {
        digits_differ(n, n);
    } else {
        decimal_has_no_dot(n / 10);
        digits_differ(n % 10, n % 10);
    }
}

/// Different numbers are written differently.
pub proof fn decimal_is_injective(i: nat, j: nat)
    requires
        decimal(i) == decimal(j),
    ensures
        i == j,
    decreases i,
{
    decimal_has_no_dot(i);
    decimal_has_no_dot(j);
    if i < 10 && j < 10 {
        digits_differ(i, j);
    } else if i >= 10 && j >= 10 {
        digits_differ(i % 10, j % 10);
        digits_differ(j % 10, i % 10);
        let a = decimal(i / 10);
        let b = decimal(j / 10);
        let x = digit(i % 10);
        let y = digit(j % 10);
        assert(decimal(i) == a + x);
        assert(decimal(j) == b + y);
        assert(a.len() == b.len());
        assert((a + x)[a.len() as int] == x[0]);
        assert((b + y)[b.len() as int] == y[0]);
        assert(i % 10 == j % 10);
        assert(a =~= b) by {
            assert forall|k: int| 0 <= k < a.len() implies a[k] == b[k] by {
                assert((a + x)[k] == a[k]);
                assert((b + y)[k] == b[k]);
            }
        }
        decimal_is_injective(i / 10, j / 10);
    } else {
        digits_differ(i % 10, j % 10);
        digits_differ(j % 10, i % 10);
    }
}

/// Two different numbers, each followed by a dot, part ways.
pub proof fn numbered_part_ways(i: nat, j: nat)
    requires
        i != j,
    ensures
        part_ways(decimal(i) + "."@, decimal(j) + "."@),
{
    reveal_strlit(".");
    decimal_has_no_dot(i);
    decimal_has_no_dot(j);
    let a = decimal(i);
    let b = decimal(j);
    if a.len() < b.len() {
        parts_at(a + "."@, b + "."@, a.len() as int);
    } else if b.len() < a.len() {
        parts_at(a + "."@, b + "."@, b.len() as int);
    } else {
        if forall|k: int| 0 <= k < a.len() ==> a[k] == b[k] {
            assert(a =~= b);
            decimal_is_injective(i, j);
        } else {
            let k = choose|k: int| 0 <= k < a.len() && a[k] != b[k];
            parts_at(a + "."@, b + "."@, k);
        }
    }
}

/// The prefixes of two different units of a stack part ways.
pub proof fn unit_prefixes_part_ways(prefix: Seq<char>, i: nat, j: nat)
    requires
        i != j,
    ensures
        part_ways(unit_prefix(prefix, i), unit_prefix(prefix, j)),
{
    numbered_part_ways(i, j);
    part_ways_behind(prefix + "model."@, decimal(i) + "."@, decimal(j) + "."@);
    assert(unit_prefix(prefix, i) =~= prefix + "model."@ + (decimal(i) + "."@));
    assert(unit_prefix(prefix, j) =~= prefix + "model."@ + (decimal(j) + "."@));
}

/// The prefix of a unit of a stack continues the prefix of the stack.
pub proof fn unit_prefix_continues(prefix: Seq<char>, i: nat)
    ensures
        unit_prefix(prefix, i) == prefix + ("model."@ + decimal(i) + "."@),
{
    assert(unit_prefix(prefix, i) =~= prefix + ("model."@ + decimal(i) + "."@));
}

/// The tensors of a stack have different paths, all under the prefix, and
/// none under the prefix of a unit that the stack does not have.
pub proof fn stack_paths_distinct(prefix: Seq<char>, units: Seq<DepthWiseConfig>)
    ensures
        paths_distinct(stack_params(prefix, units)),
        all_under(stack_params(prefix, units), prefix),
        forall|j: nat|
            j >= units.len() ==> none_under(
                stack_params(prefix, units),
                #[trigger] unit_prefix(prefix, j),
            ),
    decreases units.len(),
{
    if units.len() > 0 {
        let last = (units.len() - 1) as nat;
        let before = stack_params(prefix, units.drop_last());
        let added = unit_params(unit_prefix(prefix, last), units.last());
        stack_paths_distinct(prefix, units.drop_last());
        unit_paths_distinct(unit_prefix(prefix, last), units.last());
        assert(none_under(before, unit_prefix(prefix, last)));
        joined_paths_distinct(before, added, unit_prefix(prefix, last));
        unit_prefix_continues(prefix, last);
        all_under_shorter(added, prefix, "model."@ + decimal(last) + "."@);
        joined_all_under(before, added, prefix);
        assert forall|j: nat| j >= units.len() implies none_under(
            stack_params(prefix, units),
            #[trigger] unit_prefix(prefix, j),
        ) by {
            assert(none_under(before, unit_prefix(prefix, j)));
            unit_prefixes_part_ways(prefix, last, j);
            under_excludes(added, unit_prefix(prefix, last), unit_prefix(prefix, j));
            joined_none_under(before, added, unit_prefix(prefix, j));
        }
    }
}

/// The tensors of an embedding head have different paths, all under the
/// prefix.
pub proof fn head_paths_distinct(prefix: Seq<char>, head: HeadVariant)
    ensures
        paths_distinct(head_params(prefix, head)),
        all_under(head_params(prefix, head), prefix),
{
    match head {
        HeadVariant::Gnap { num_features } => {
            reveal_strlit("bn1.");
            reveal_strlit("bn2.");
            parts_at("bn1."@, "bn2."@, 2);
            norm_paths_distinct(prefix + "bn1."@, num_features);
            norm_paths_distinct(prefix + "bn2."@, num_features);
            named_groups_distinct(
                prefix,
                norm_params(prefix + "bn1."@, num_features),
                "bn1."@,
                norm_params(prefix + "bn2."@, num_features),
                "bn2."@,
            );
        },
        HeadVariant::Gdc { embedding_size } => {
            reveal_strlit("conv_6_dw.");
            reveal_strlit("linear.");
            reveal_strlit("bn.");
            parts_at("conv_6_dw."@, "linear."@, 0);
            parts_at("conv_6_dw."@, "bn."@, 0);
            parts_at("linear."@, "bn."@, 0);
            let first = block_params(prefix + "conv_6_dw."@, HeadVariant::gdc_conv());
            let second = linear_params(
                prefix + "linear."@,
                HeadVariant::gdc_linear(embedding_size),
            );
            let third = norm_params(prefix + "bn."@, embedding_size);
            block_paths_distinct(prefix + "conv_6_dw."@, HeadVariant::gdc_conv());
            linear_paths_distinct(prefix + "linear."@, HeadVariant::gdc_linear(embedding_size));
            norm_paths_distinct(prefix + "bn."@, embedding_size);
            named_groups_distinct(prefix, first, "conv_6_dw."@, second, "linear."@);
            part_ways_behind(prefix, "conv_6_dw."@, "bn."@);
            part_ways_behind(prefix, "linear."@, "bn."@);
            under_excludes(first, prefix + "conv_6_dw."@, prefix + "bn."@);
            under_excludes(second, prefix + "linear."@, prefix + "bn."@);
            joined_none_under(first, second, prefix + "bn."@);
            joined_paths_distinct(first + second, third, prefix + "bn."@);
            all_under_shorter(third, prefix, "bn."@);
            joined_all_under(first + second, third, prefix);
        },
    }
}

/// `path` begins with one of `prefixes`.
pub open spec fn under_some(path: Seq<char>, prefixes: Seq<Seq<char>>) -> bool {
    exists|m: int| 0 <= m < prefixes.len() && #[trigger] begins_with(path, prefixes[m])
}

/// Every path of `params` begins with one of `prefixes`.
pub open spec fn covered(params: Seq<ParamModel>, prefixes: Seq<Seq<char>>) -> bool {
    forall|i: int| 0 <= i < params.len() ==> under_some((#[trigger] params[i]).path, prefixes)
}

/// Entries under a prefix are covered by that prefix alone.
pub proof fn covered_by_one(params: Seq<ParamModel>, prefix: Seq<char>)
    requires
        all_under(params, prefix),
    ensures
        covered(params, seq![prefix]),
{
    let prefixes = seq![prefix];
    assert forall|i: int| 0 <= i < params.len() implies under_some(
        (#[trigger] params[i]).path,
        prefixes,
    ) by {
        assert(begins_with(params[i].path, prefixes[0]));
    }
}

/// A list without repeated paths, each under one of some prefixes, and a
/// group without repeated paths under a prefix that parts ways with all of
/// those, make a list without repeated paths.
pub proof fn another_group_distinct(
    params: Seq<ParamModel>,
    prefixes: Seq<Seq<char>>,
    group: Seq<ParamModel>,
    prefix: Seq<char>,
)
    requires
        paths_distinct(params),
        covered(params, prefixes),
        paths_distinct(group),
        all_under(group, prefix),
        forall|m: int| 0 <= m < prefixes.len() ==> part_ways(#[trigger] prefixes[m], prefix),
    ensures
        paths_distinct(params + group),
        covered(params + group, prefixes.push(prefix)),
{
    assert forall|i: int| 0 <= i < params.len() implies !begins_with(
        (#[trigger] params[i]).path,
        prefix,
    ) by {
        assert(under_some(params[i].path, prefixes));
        let m = choose|m: int|
            0 <= m < prefixes.len() && #[trigger] begins_with(params[i].path, prefixes[m]);
        parted_excludes(params[i].path, prefixes[m], prefix);
    }
    joined_paths_distinct(params, group, prefix);
    let all = params + group;
    let wider = prefixes.push(prefix);
    assert forall|i: int| 0 <= i < all.len() implies under_some(
        (#[trigger] all[i]).path,
        wider,
    ) by {
        if i < params.len() {
            assert(all[i] == params[i]);
            assert(under_some(params[i].path, prefixes));
            let m = choose|m: int|
                0 <= m < prefixes.len() && #[trigger] begins_with(params[i].path, prefixes[m]);
            assert(wider[m] == prefixes[m]);
            assert(begins_with(all[i].path, wider[m]));
        } else {
            assert(all[i] == group[i - params.len()]);
            assert(wider[prefixes.len() as int] == prefix);
            assert(begins_with(all[i].path, wider[prefixes.len() as int]));
        }
    }
}

/// No two tensors of a network share a path.
pub proof fn network_paths_distinct(net: NetworkModel)
    ensures
        paths_distinct(network_params(net)),
{
    reveal_strlit("conv1.");
    reveal_strlit("conv2_dw.");
    reveal_strlit("conv_23.");
    reveal_strlit("conv_3.");
    reveal_strlit("conv_34.");
    reveal_strlit("conv_4.");
    reveal_strlit("conv_45.");
    reveal_strlit("conv_5.");
    reveal_strlit("conv_6_sep.");
    reveal_strlit("output_layer.");
    block_paths_distinct("conv1."@, net.conv1);
    block_paths_distinct("conv2_dw."@, net.conv2_dw);
    unit_paths_distinct("conv_23."@, net.conv_23);
    stack_paths_distinct("conv_3."@, net.conv_3);
    unit_paths_distinct("conv_34."@, net.conv_34);
    stack_paths_distinct("conv_4."@, net.conv_4);
    unit_paths_distinct("conv_45."@, net.conv_45);
    stack_paths_distinct("conv_5."@, net.conv_5);
    block_paths_distinct("conv_6_sep."@, net.conv_6_sep);
    head_paths_distinct("output_layer."@, net.output_layer);
    let mut acc = block_params("conv1."@, net.conv1);
    let mut seen = seq!["conv1."@];
    covered_by_one(acc, "conv1."@);
    assert forall|m: int| 0 <= m < seen.len() implies part_ways(
        #[trigger] seen[m],
        "conv2_dw."@,
    ) by {
        parts_at("conv1."@, "conv2_dw."@, 4);
    }
    another_group_distinct(acc, seen, block_params("conv2_dw."@, net.conv2_dw), "conv2_dw."@);
    acc = acc + block_params("conv2_dw."@, net.conv2_dw);
    seen = seen.push("conv2_dw."@);
    assert forall|m: int| 0 <= m < seen.len() implies part_ways(
        #[trigger] seen[m],
        "conv_23."@,
    ) by {
        if m == 0 {
            parts_at("conv1."@, "conv_23."@, 4);
        } else {
            parts_at("conv2_dw."@, "conv_23."@, 4);
        }
    }
    another_group_distinct(acc, seen, unit_params("conv_23."@, net.conv_23), "conv_23."@);
    acc = acc + unit_params("conv_23."@, net.conv_23);
    seen = seen.push("conv_23."@);
    assert forall|m: int| 0 <= m < seen.len() implies part_ways(
        #[trigger] seen[m],
        "conv_3."@,
    ) by {
        if m == 0 {
            parts_at("conv1."@, "conv_3."@, 4);
        } else if m == 1 {
            parts_at("conv2_dw."@, "conv_3."@, 4);
        } else {
            parts_at("conv_23."@, "conv_3."@, 5);
        }
    }
    another_group_distinct(acc, seen, stack_params("conv_3."@, net.conv_3), "conv_3."@);
    acc = acc + stack_params("conv_3."@, net.conv_3);
    seen = seen.push("conv_3."@);
    assert forall|m: int| 0 <= m < seen.len() implies part_ways(
        #[trigger] seen[m],
        "conv_34."@,
    ) by {
        if m == 0 {
            parts_at("conv1."@, "conv_34."@, 4);
        } else if m == 1 {
            parts_at("conv2_dw."@, "conv_34."@, 4);
        } else if m == 2 {
            parts_at("conv_23."@, "conv_34."@, 5);
        } else {
            parts_at("conv_3."@, "conv_34."@, 6);
        }
    }
    another_group_distinct(acc, seen, unit_params("conv_34."@, net.conv_34), "conv_34."@);
    acc = acc + unit_params("conv_34."@, net.conv_34);
    seen = seen.push("conv_34."@);
    assert forall|m: int| 0 <= m < seen.len() implies part_ways(
        #[trigger] seen[m],
        "conv_4."@,
    ) by {
        if m == 0 {
            parts_at("conv1."@, "conv_4."@, 4);
        } else if m == 1 {
            parts_at("conv2_dw."@, "conv_4."@, 4);
        } else if m == 2 {
            parts_at("conv_23."@, "conv_4."@, 5);
        } else if m == 3 {
            parts_at("conv_3."@, "conv_4."@, 5);
        } else {
            parts_at("conv_34."@, "conv_4."@, 5);
        }
    }
    another_group_distinct(acc, seen, stack_params("conv_4."@, net.conv_4), "conv_4."@);
    acc = acc + stack_params("conv_4."@, net.conv_4);
    seen = seen.push("conv_4."@);
    assert forall|m: int| 0 <= m < seen.len() implies part_ways(
        #[trigger] seen[m],
        "conv_45."@,
    ) by {
        if m == 0 {
            parts_at("conv1."@, "conv_45."@, 4);
        } else if m == 1 {
            parts_at("conv2_dw."@, "conv_45."@, 4);
        } else if m == 2 {
            parts_at("conv_23."@, "conv_45."@, 5);
        } else if m == 3 {
            parts_at("conv_3."@, "conv_45."@, 5);
        } else if m == 4 {
            parts_at("conv_34."@, "conv_45."@, 5);
        } else {
            parts_at("conv_4."@, "conv_45."@, 6);
        }
    }
    another_group_distinct(acc, seen, unit_params("conv_45."@, net.conv_45), "conv_45."@);
    acc = acc + unit_params("conv_45."@, net.conv_45);
    seen = seen.push("conv_45."@);
    assert forall|m: int| 0 <= m < seen.len() implies part_ways(
        #[trigger] seen[m],
        "conv_5."@,
    ) by {
        if m == 0 {
            parts_at("conv1."@, "conv_5."@, 4);
        } else if m == 1 {
            parts_at("conv2_dw."@, "conv_5."@, 4);
        } else if m == 2 {
            parts_at("conv_23."@, "conv_5."@, 5);
        } else if m == 3 {
            parts_at("conv_3."@, "conv_5."@, 5);
        } else if m == 4 {
            parts_at("conv_34."@, "conv_5."@, 5);
        } else if m == 5 {
            parts_at("conv_4."@, "conv_5."@, 5);
        } else {
            parts_at("conv_45."@, "conv_5."@, 5);
        }
    }
    another_group_distinct(acc, seen, stack_params("conv_5."@, net.conv_5), "conv_5."@);
    acc = acc + stack_params("conv_5."@, net.conv_5);
    seen = seen.push("conv_5."@);
    assert forall|m: int| 0 <= m < seen.len() implies part_ways(
        #[trigger] seen[m],
        "conv_6_sep."@,
    ) by {
        if m == 0 {
            parts_at("conv1."@, "conv_6_sep."@, 4);
        } else if m == 1 {
            parts_at("conv2_dw."@, "conv_6_sep."@, 4);
        } else if m == 2 {
            parts_at("conv_23."@, "conv_6_sep."@, 5);
        } else if m == 3 {
            parts_at("conv_3."@, "conv_6_sep."@, 5);
        } else if m == 4 {
            parts_at("conv_34."@, "conv_6_sep."@, 5);
        } else if m == 5 {
            parts_at("conv_4."@, "conv_6_sep."@, 5);
        } else if m == 6 {
            parts_at("conv_45."@, "conv_6_sep."@, 5);
        } else {
            parts_at("conv_5."@, "conv_6_sep."@, 5);
        }
    }
    another_group_distinct(acc, seen, block_params("conv_6_sep."@, net.conv_6_sep), "conv_6_sep."@);
    acc = acc + block_params("conv_6_sep."@, net.conv_6_sep);
    seen = seen.push("conv_6_sep."@);
    assert forall|m: int| 0 <= m < seen.len() implies part_ways(
        #[trigger] seen[m],
        "output_layer."@,
    ) by {
        if m == 0 {
            parts_at("conv1."@, "output_layer."@, 0);
        } else if m == 1 {
            parts_at("conv2_dw."@, "output_layer."@, 0);
        } else if m == 2 {
            parts_at("conv_23."@, "output_layer."@, 0);
        } else if m == 3 {
            parts_at("conv_3."@, "output_layer."@, 0);
        } else if m == 4 {
            parts_at("conv_34."@, "output_layer."@, 0);
        } else if m == 5 {
            parts_at("conv_4."@, "output_layer."@, 0);
        } else if m == 6 {
            parts_at("conv_45."@, "output_layer."@, 0);
        } else if m == 7 {
            parts_at("conv_5."@, "output_layer."@, 0);
        } else {
            parts_at("conv_6_sep."@, "output_layer."@, 0);
        }
    }
    another_group_distinct(
        acc,
        seen,
        head_params("output_layer."@, net.output_layer),
        "output_layer."@,
    );
    acc = acc + head_params("output_layer."@, net.output_layer);
    seen = seen.push("output_layer."@);
    assert(acc == network_params(net));
}

/// No two tensors of a classifier share a path.
pub proof fn classifier_paths_distinct(net: ClassifierModel)
    ensures
        paths_distinct(classifier_params(net)),
{
    reveal_strlit("conv1.");
    reveal_strlit("conv2.");
    reveal_strlit("conv3.");
    reveal_strlit("fc1.");
    reveal_strlit("fc2.");
    block_paths_distinct("conv1."@, net.conv1);
    block_paths_distinct("conv2."@, net.conv2);
    block_paths_distinct("conv3."@, net.conv3);
    linear_paths_distinct("fc1."@, net.fc1);
    linear_paths_distinct("fc2."@, net.fc2);
    let mut acc = block_params("conv1."@, net.conv1);
    let mut seen = seq!["conv1."@];
    covered_by_one(acc, "conv1."@);
    assert forall|m: int| 0 <= m < seen.len() implies part_ways(
        #[trigger] seen[m],
        "conv2."@,
    ) by {
        parts_at("conv1."@, "conv2."@, 4);
    }
    another_group_distinct(acc, seen, block_params("conv2."@, net.conv2), "conv2."@);
    acc = acc + block_params("conv2."@, net.conv2);
    seen = seen.push("conv2."@);
    assert forall|m: int| 0 <= m < seen.len() implies part_ways(
        #[trigger] seen[m],
        "conv3."@,
    ) by {
        if m == 0 {
            parts_at("conv1."@, "conv3."@, 4);
        } else {
            parts_at("conv2."@, "conv3."@, 4);
        }
    }
    another_group_distinct(acc, seen, block_params("conv3."@, net.conv3), "conv3."@);
    acc = acc + block_params("conv3."@, net.conv3);
    seen = seen.push("conv3."@);
    assert forall|m: int| 0 <= m < seen.len() implies part_ways(
        #[trigger] seen[m],
        "fc1."@,
    ) by {
        if m == 0 {
            parts_at("conv1."@, "fc1."@, 0);
        } else if m == 1 {
            parts_at("conv2."@, "fc1."@, 0);
        } else {
            parts_at("conv3."@, "fc1."@, 0);
        }
    }
    another_group_distinct(acc, seen, linear_params("fc1."@, net.fc1), "fc1."@);
    acc = acc + linear_params("fc1."@, net.fc1);
    seen = seen.push("fc1."@);
    assert forall|m: int| 0 <= m < seen.len() implies part_ways(
        #[trigger] seen[m],
        "fc2."@,
    ) by {
        if m == 0 {
            parts_at("conv1."@, "fc2."@, 0);
        } else if m == 1 {
            parts_at("conv2."@, "fc2."@, 0);
        } else if m == 2 {
            parts_at("conv3."@, "fc2."@, 0);
        } else {
            parts_at("fc1."@, "fc2."@, 2);
        }
    }
    another_group_distinct(acc, seen, linear_params("fc2."@, net.fc2), "fc2."@);
    acc = acc + linear_params("fc2."@, net.fc2);
    seen = seen.push("fc2."@);
    assert(acc == classifier_params(net));
}

} // verus!
