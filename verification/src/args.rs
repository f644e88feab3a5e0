//! From a generation request to the argument vector of the generator
//! executable.
//!
//! Every argument is a token of its own: nothing is ever joined into a shell
//! string, so the content of a prompt cannot change how the arguments are cut.

use vstd::prelude::*;
use vstd::string::*;
use crate::config::Context;
use crate::request::ImageGenerationRequest;
use crate::text::{
    all_digits,
    decimal,
    decimal_string,
    is_digit,
    join3,
    lemma_decimal_last,
    lemma_texts_push,
    texts,
};

verus! {

/// `s` holds the character `x` at index `i` and nowhere else.
pub open spec fn single_x_at(s: Seq<char>, i: int) -> bool {
    &&& 0 <= i < s.len()
    &&& s[i] == 'x'
    &&& forall|k: int| 0 <= k < s.len() && k != i ==> s[k] != 'x'
}

/// `s` is a size text cut at `i`: an `x` stands there, with at least one
/// character on either side, and every other character is a digit.
pub open spec fn splits_at(s: Seq<char>, i: int) -> bool {
    &&& 0 < i < s.len() - 1
    &&& s[i] == 'x'
    &&& forall|k: int| 0 <= k < s.len() && k != i ==> is_digit(#[trigger] s[k])
}

/// Width and height of a size text `WxH`: the two numerals on either side
/// of its only `x`. Any other text has none.
pub open spec fn size_parts(s: Seq<char>) -> Option<(Seq<char>, Seq<char>)> {
    if exists|i: int| splits_at(s, i) {
        let i = choose|i: int| splits_at(s, i);
        Some((s.subrange(0, i), s.subrange(i + 1, s.len() as int)))
    } else {
        None
    }
}

/// The path of the output file of the request that started at `timestamp`.
pub open spec fn output_path_text(cache_dir: Seq<char>, timestamp: nat) -> Seq<char> {
    cache_dir + "/sd_output_"@ + decimal(timestamp) + ".png"@
}

/// The arguments that the configuration fixes for every run.
pub open spec fn fixed_part(args: Option<Vec<String>>) -> Seq<Seq<char>> {
    match args {
        Some(v) => texts(v@),
        None => Seq::empty(),
    }
}

/// The five flags that every run has, each followed by its value.
pub open spec fn required_part(
    models_dir: Seq<char>,
    model: Seq<char>,
    prompt: Seq<char>,
    output_path: Seq<char>,
    steps: nat,
    cfg_scale: Seq<char>,
) -> Seq<Seq<char>> {
    seq![
        "-m"@,
        models_dir + "/"@ + model,
        "-p"@,
        prompt,
        "-o"@,
        output_path,
        "--steps"@,
        decimal(steps),
        "--cfg-scale"@,
        cfg_scale,
    ]
}

/// The seed flag and its value, for a seed that is set (not negative).
pub open spec fn seed_part(seed: int) -> Seq<Seq<char>> {
    if seed >= 0 {
        seq!["--seed"@, decimal(seed as nat)]
    } else {
        Seq::empty()
    }
}

/// The negative-prompt flag and its value, where the request has one.
pub open spec fn negative_part(negative_prompt: Option<String>) -> Seq<Seq<char>> {
    match negative_prompt {
        Some(n) => seq!["-n"@, n@],
        None => Seq::empty(),
    }
}

/// The width and height flags with their values, for a size text that has
/// both parts.
pub open spec fn size_part(size: Seq<char>) -> Seq<Seq<char>> {
    match size_parts(size) {
        Some((w, h)) => seq!["-W"@, w, "-H"@, h],
        None => Seq::empty(),
    }
}

/// The whole argument vector, in the order of the generator's command line.
pub open spec fn arguments(
    ctx: &Context,
    req: &ImageGenerationRequest,
    output_path: Seq<char>,
) -> Seq<Seq<char>> {
    fixed_part(ctx.args) + required_part(
        ctx.models_dir@,
        req.model@,
        req.prompt@,
        output_path,
        req.steps as nat,
        req.cfg_scale@,
    ) + seed_part(req.seed as int) + negative_part(req.negative_prompt) + size_part(req.size@)
}

/// Cuts a size text into width and height.
pub fn split_size(size: &str) -> (r: Option<(String, String)>)
    ensures
        match r {
            Some((w, h)) => size_parts(size@) == Some((w@, h@)),
            None => size_parts(size@) is None,
        },
{
    let n: usize = size.unicode_len();
    let mut i: usize = 0;
    let mut at: Option<usize> = None;
    while i < n
        invariant
            i <= n,
            n == size@.len(),
            match at {
                None => forall|k: int| 0 <= k < i ==> is_digit(#[trigger] size@[k]),
                Some(j) => j < i && size@[j as int] == 'x' && forall|k: int|
                    0 <= k < i && k != j ==> is_digit(#[trigger] size@[k]),
            },
        decreases n - i,
    {
        let c: char = size.get_char(i);
        let code: u32 = c as u32;
        if c == 'x' {
            match at {
                Some(j) => {
                    assert forall|q: int| !splits_at(size@, q) by {
                        if splits_at(size@, q) {
                            assert(q != j ==> is_digit(size@[j as int]));
                            assert(q != i ==> is_digit(size@[i as int]));
                        }
                    }
                    return None;
                },
                None => {
                    at = Some(i);
                },
            }
        } else if code < 48 || code > 57 {
            assert forall|q: int| !splits_at(size@, q) by {
                if splits_at(size@, q) {
                    assert(q != i ==> is_digit(size@[i as int]));
                }
            }
            return None;
        }
        i = i + 1;
    }
    match at {
        None => {
            assert forall|q: int| !splits_at(size@, q) by {
                if splits_at(size@, q) {
                    assert(is_digit(size@[q]));
                }
            }
            None
        },
        Some(j) => {
            if 0 < j && j < n - 1 {
                let w = String::from_str(size.substring_char(0, j));
                let h = String::from_str(size.substring_char(j + 1, n));
                proof {
                    lemma_size_part_of_split(size@, j as int);
                }
                Some((w, h))
            } else {
                assert forall|q: int| !splits_at(size@, q) by {
                    if splits_at(size@, q) {
                        assert(q != j ==> is_digit(size@[j as int]));
                    }
                }
                None
            }
        },
    }
}

/// Builds the path of the output file from the cache directory and the time
/// at which the request started.
pub fn output_path(cache_dir: &str, timestamp: u64) -> (r: String)
    ensures
        r@ == output_path_text(cache_dir@, timestamp as nat),
{
    let mut r = String::from_str(cache_dir);
    r.append("/sd_output_");
    let ts = decimal_string(timestamp);
    r.append(ts.as_str());
    r.append(".png");
    r
}

fn push_text(out: &mut Vec<String>, s: &str)
    ensures
        texts(final(out)@) == texts(old(out)@).push(s@),
{
    let owned = String::from_str(s);
    proof {
        lemma_texts_push(out@, owned);
    }
    out.push(owned);
}

/// Builds the argument vector for one run of the generator.
pub fn build_arguments(ctx: &Context, req: &ImageGenerationRequest, output_path: &str) -> (r: Vec<
    String,
>)
    ensures
        texts(r@) == arguments(ctx, req, output_path@),
{
    let mut out: Vec<String> = Vec::new();
    assert(texts(out@) =~= Seq::empty());
    match &ctx.args {
        Some(v) => {
            let mut i: usize = 0;
            while i < v.len()
                invariant
                    i <= v@.len(),
                    texts(out@) == texts(v@.subrange(0, i as int)),
                decreases v@.len() - i,
            {
                push_text(&mut out, v[i].as_str());
                assert(texts(v@.subrange(0, i as int)).push(v@[i as int]@) =~= texts(
                    v@.subrange(0, i + 1),
                ));
                i = i + 1;
            }
            assert(v@.subrange(0, i as int) =~= v@);
        },
        None => {},
    }
    assert(texts(out@) == fixed_part(ctx.args));
    let model_path = join3(ctx.models_dir.as_str(), "/", req.model.as_str());
    push_text(&mut out, "-m");
    push_text(&mut out, model_path.as_str());
    push_text(&mut out, "-p");
    push_text(&mut out, req.prompt.as_str());
    push_text(&mut out, "-o");
    push_text(&mut out, output_path);
    push_text(&mut out, "--steps");
    let steps = decimal_string(req.steps as u64);
    push_text(&mut out, steps.as_str());
    push_text(&mut out, "--cfg-scale");
    push_text(&mut out, req.cfg_scale.as_str());
    assert(texts(out@) =~= fixed_part(ctx.args) + required_part(
        ctx.models_dir@,
        req.model@,
        req.prompt@,
        output_path@,
        req.steps as nat,
        req.cfg_scale@,
    ));
    let ghost before_seed = texts(out@);
    if req.seed >= 0 {
        push_text(&mut out, "--seed");
        let seed = decimal_string(req.seed as u64);
        push_text(&mut out, seed.as_str());
    }
    assert(texts(out@) =~= before_seed + seed_part(req.seed as int));
    let ghost before_negative = texts(out@);
    match &req.negative_prompt {
        Some(n) => {
            push_text(&mut out, "-n");
            push_text(&mut out, n.as_str());
        },
        None => {},
    }
    assert(texts(out@) =~= before_negative + negative_part(req.negative_prompt));
    let ghost before_size = texts(out@);
    match split_size(req.size.as_str()) {
        Some((w, h)) => {
            push_text(&mut out, "-W");
            push_text(&mut out, w.as_str());
            push_text(&mut out, "-H");
            push_text(&mut out, h.as_str());
        },
        None => {},
    }
    assert(texts(out@) =~= before_size + size_part(req.size@));
    out
}

/// How many arguments the optional fields of a request add: two for a seed
/// that is set, two for a negative prompt, four for a size that has both
/// parts.
pub open spec fn optional_count(req: &ImageGenerationRequest) -> nat {
    (if req.seed >= 0 { 2nat } else { 0nat })
        + (if req.negative_prompt is Some { 2nat } else { 0nat })
        + (if size_parts(req.size@) is Some { 4nat } else { 0nat })
}

/// The argument vector keeps one order whatever optional fields the request
/// has: first the fixed arguments of the configuration, unchanged; then the
/// five required flags, each directly followed by its value; then the
/// optional flags, the seed before the negative prompt before the size.
pub proof fn lemma_arguments_order(
    ctx: &Context,
    req: &ImageGenerationRequest,
    output_path: Seq<char>,
)
    ensures
        ({
            let a = arguments(ctx, req, output_path);
            let k = fixed_part(ctx.args).len() as int;
            let s = k + 10 + (if req.seed >= 0 { 2int } else { 0int });
            let n = s + (if req.negative_prompt is Some { 2int } else { 0int });
            &&& a.len() == k + 10 + optional_count(req)
            &&& a.subrange(0, k) == fixed_part(ctx.args)
            &&& a[k] == "-m"@
            &&& a[k + 1] == ctx.models_dir@ + "/"@ + req.model@
            &&& a[k + 2] == "-p"@
            &&& a[k + 3] == req.prompt@
            &&& a[k + 4] == "-o"@
            &&& a[k + 5] == output_path
            &&& a[k + 6] == "--steps"@
            &&& a[k + 7] == decimal(req.steps as nat)
            &&& a[k + 8] == "--cfg-scale"@
            &&& a[k + 9] == req.cfg_scale@
            &&& a.subrange(k + 10, s) == seed_part(req.seed as int)
            &&& a.subrange(s, n) == negative_part(req.negative_prompt)
            &&& a.subrange(n, a.len() as int) == size_part(req.size@)
        }),
{
    let a = arguments(ctx, req, output_path);
    let k = fixed_part(ctx.args).len() as int;
    let s = k + 10 + (if req.seed >= 0 { 2int } else { 0int });
    let n = s + (if req.negative_prompt is Some { 2int } else { 0int });
    assert(a.subrange(0, k) =~= fixed_part(ctx.args));
    assert(a.subrange(k + 10, s) =~= seed_part(req.seed as int));
    assert(a.subrange(s, n) =~= negative_part(req.negative_prompt));
    assert(a.subrange(n, a.len() as int) =~= size_part(req.size@));
}

/// A seed that is set always appears: the flag `--seed` stands directly
/// behind the required flags, followed by the seed's decimal numeral.
pub proof fn lemma_seed_present(
    ctx: &Context,
    req: &ImageGenerationRequest,
    output_path: Seq<char>,
)
    requires
        req.seed >= 0,
    ensures
        ({
            let a = arguments(ctx, req, output_path);
            let k = fixed_part(ctx.args).len() as int;
            &&& a.len() >= k + 12
            &&& a[k + 10] == "--seed"@
            &&& a[k + 11] == decimal(req.seed as nat)
        }),
{
}

/// A size text is cut at most one way: where it is cut at `i`, its parts are
/// what stands before and behind `i`, and both size flags are produced.
pub proof fn lemma_size_part_of_split(s: Seq<char>, i: int)
    requires
        splits_at(s, i),
    ensures
        size_parts(s) == Some((s.subrange(0, i), s.subrange(i + 1, s.len() as int))),
        size_part(s) == seq!["-W"@, s.subrange(0, i), "-H"@, s.subrange(i + 1, s.len() as int)],
{
    let q = choose|q: int| splits_at(s, q);
    assert(q != i ==> is_digit(s[i]));
    assert(q == i);
}

/// A text that does not hold exactly one `x` is cut nowhere and produces no
/// size flag.
pub proof fn lemma_size_part_needs_single_x(s: Seq<char>)
    requires
        forall|i: int| !single_x_at(s, i),
    ensures
        size_parts(s) is None,
        size_part(s) == Seq::<Seq<char>>::empty(),
{
    assert forall|i: int| !splits_at(s, i) by {
        if splits_at(s, i) {
            assert forall|k: int| 0 <= k < s.len() && k != i implies s[k] != 'x' by {
                assert(is_digit(s[k]));
            }
            assert(single_x_at(s, i));
        }
    }
}

/// Where size flags are produced, each value is a numeral: not empty, and
/// digits only.
pub proof fn lemma_size_parts_are_numerals(s: Seq<char>)
    requires
        size_parts(s) is Some,
    ensures
        ({
            let (w, h) = size_parts(s)->0;
            &&& w.len() > 0
            &&& h.len() > 0
            &&& all_digits(w)
            &&& all_digits(h)
            &&& s == w + seq!['x'] + h
        }),
{
    let i = choose|i: int| splits_at(s, i);
    let (w, h) = size_parts(s)->0;
    assert forall|k: int| 0 <= k < w.len() implies is_digit(#[trigger] w[k]) by {
        assert(w[k] == s[k]);
    }
    assert forall|k: int| 0 <= k < h.len() implies is_digit(#[trigger] h[k]) by {
        assert(h[k] == s[i + 1 + k]);
    }
    assert(s =~= w + seq!['x'] + h);
}

/// Texts of two parts: neither holds `x` where both parts do not.
proof fn lemma_concat_lacks(a: Seq<Seq<char>>, b: Seq<Seq<char>>, x: Seq<char>)
    requires
        !a.contains(x),
        !b.contains(x),
    ensures
        !(a + b).contains(x),
{
    assert forall|i: int| 0 <= i < (a + b).len() implies (a + b)[i] != x by {
        if i < a.len() {
            assert(a.contains(a[i]));
        } else {
            assert(b.contains(b[i - a.len()]));
        }
    }
}

/// A seed that is not set never appears: where no text that the request or
/// the configuration supplies is itself `--seed`, no argument is `--seed`.
/// The output path is the one that the cache directory and the time give.
pub proof fn lemma_seed_absent(ctx: &Context, req: &ImageGenerationRequest, timestamp: nat)
    requires
        req.seed < 0,
        !fixed_part(ctx.args).contains("--seed"@),
        req.prompt@ != "--seed"@,
        req.cfg_scale@ != "--seed"@,
        req.negative_prompt matches Some(n) ==> n@ != "--seed"@,
    ensures
        !arguments(ctx, req, output_path_text(ctx.cache_dir@, timestamp)).contains("--seed"@),
{
    let x = "--seed"@;
    let path = output_path_text(ctx.cache_dir@, timestamp);
    let required = required_part(
        ctx.models_dir@,
        req.model@,
        req.prompt@,
        path,
        req.steps as nat,
        req.cfg_scale@,
    );
    reveal_strlit("--seed");
    reveal_strlit("-m");
    reveal_strlit("-p");
    reveal_strlit("-o");
    reveal_strlit("--steps");
    reveal_strlit("--cfg-scale");
    reveal_strlit("-n");
    reveal_strlit("-W");
    reveal_strlit("-H");
    reveal_strlit("/");
    reveal_strlit(".png");
    let model_path = ctx.models_dir@ + "/"@ + req.model@;
    assert(model_path[ctx.models_dir@.len() as int] == '/');
    assert(model_path != x) by {
        if model_path == x {
            let j = ctx.models_dir@.len() as int;
            assert(x.len() == 6);
            assert(model_path.len() == ctx.models_dir@.len() + "/"@.len() + req.model@.len());
            assert(0 <= j < 6);
            assert(x[0] == '-' && x[1] == '-' && x[2] == 's' && x[3] == 'e' && x[4] == 'e' && x[5]
                == 'd');
            assert(x[j] == '/');
        }
    }
    assert(path.last() == 'g');
    assert(x.last() == 'd');
    lemma_decimal_last(req.steps as nat);
    assert(decimal(req.steps as nat).last() != 'd');
    assert forall|i: int| 0 <= i < required.len() implies required[i] != x by {}
    assert(!required.contains(x));
    assert(!seed_part(req.seed as int).contains(x));
    assert(!negative_part(req.negative_prompt).contains(x)) by {
        let p = negative_part(req.negative_prompt);
        assert forall|i: int| 0 <= i < p.len() implies p[i] != x by {}
    }
    assert(!size_part(req.size@).contains(x)) by {
        let p = size_part(req.size@);
        if size_parts(req.size@) is Some {
            lemma_size_parts_are_numerals(req.size@);
            let (w, h) = size_parts(req.size@)->0;
            assert(is_digit(w[0]) && is_digit(h[0]));
            assert(x[0] == '-');
        }
        assert forall|i: int| 0 <= i < p.len() implies p[i] != x by {}
    }
    lemma_concat_lacks(fixed_part(ctx.args), required, x);
    lemma_concat_lacks(fixed_part(ctx.args) + required, seed_part(req.seed as int), x);
    lemma_concat_lacks(
        fixed_part(ctx.args) + required + seed_part(req.seed as int),
        negative_part(req.negative_prompt),
        x,
    );
    lemma_concat_lacks(
        fixed_part(ctx.args) + required + seed_part(req.seed as int) + negative_part(
            req.negative_prompt,
        ),
        size_part(req.size@),
        x,
    );
}

} // verus!
