use sd_cpp_server::args::{build_arguments, output_path, split_size};
use sd_cpp_server::config::Context;
use sd_cpp_server::request::{
    default_cfg_scale_text, default_seed, default_size, default_steps, ImageGenerationRequest,
};
use sd_cpp_server::text::decimal_string;

fn context(args: Option<Vec<String>>) -> Context {
    Context {
        port: 8080,
        token: "secret".to_string(),
        binary_path: "/usr/bin/sd".to_string(),
        args,
        models_dir: "/models".to_string(),
        cache_dir: "/cache".to_string(),
    }
}

fn request() -> ImageGenerationRequest {
    ImageGenerationRequest::new("a cat".to_string(), "sd-v1.ckpt".to_string())
}

fn strs(v: &[&str]) -> Vec<String> {
    v.iter().map(|s| s.to_string()).collect()
}

#[test]
fn defaults_are_the_documented_ones() {
    assert_eq!(default_size(), "512x512");
    assert_eq!(default_steps(), 20);
    assert_eq!(default_seed(), -1);
    assert_eq!(default_cfg_scale_text(), 7.0f32.to_string());
    let r = request();
    assert_eq!(r.prompt, "a cat");
    assert_eq!(r.model, "sd-v1.ckpt");
    assert_eq!(r.size, "512x512");
    assert_eq!(r.negative_prompt, None);
    assert_eq!(r.steps, 20);
    assert_eq!(r.cfg_scale, "7");
    assert_eq!(r.seed, -1);
}

#[test]
fn decimal_string_matches_std() {
    for n in [0u64, 7, 9, 10, 20, 99, 100, 1234567890, u32::MAX as u64, u64::MAX] {
        assert_eq!(decimal_string(n), n.to_string());
    }
}

#[test]
fn output_path_is_built_from_cache_dir_and_time() {
    assert_eq!(output_path("/cache", 1700000000), "/cache/sd_output_1700000000.png");
    assert_eq!(output_path("", 0), "/sd_output_0.png");
}

#[test]
fn minimal_request_gives_the_documented_vector() {
    let ctx = context(None);
    let req = request();
    let path = output_path(&ctx.cache_dir, 1700000000);
    let args = build_arguments(&ctx, &req, &path);
    assert_eq!(
        args,
        strs(&[
            "-m",
            "/models/sd-v1.ckpt",
            "-p",
            "a cat",
            "-o",
            "/cache/sd_output_1700000000.png",
            "--steps",
            "20",
            "--cfg-scale",
            "7",
            "-W",
            "512",
            "-H",
            "512",
        ])
    );
    assert!(!args.contains(&"--seed".to_string()));
    assert!(!args.contains(&"-n".to_string()));
}

#[test]
fn fixed_arguments_come_first_and_unchanged() {
    let ctx = context(Some(strs(&["--threads", "4", "-v"])));
    let req = request();
    let args = build_arguments(&ctx, &req, "/cache/out.png");
    assert_eq!(&args[..3], &strs(&["--threads", "4", "-v"])[..]);
    assert_eq!(args[3], "-m");
    assert_eq!(args[4], "/models/sd-v1.ckpt");
    assert_eq!(args.len(), 3 + 14);
}

#[test]
fn empty_fixed_arguments_add_nothing() {
    let ctx = context(Some(Vec::new()));
    let args = build_arguments(&ctx, &request(), "/cache/out.png");
    assert_eq!(args[0], "-m");
    assert_eq!(args.len(), 14);
}

#[test]
fn every_optional_field_keeps_the_order() {
    let ctx = context(Some(strs(&["--fast"])));
    let req = ImageGenerationRequest {
        prompt: "a dog; rm -rf /".to_string(),
        model: "m.safetensors".to_string(),
        size: "640x480".to_string(),
        negative_prompt: Some("blurry".to_string()),
        steps: 35,
        cfg_scale: 7.5f32.to_string(),
        seed: 42,
    };
    let args = build_arguments(&ctx, &req, "/cache/out.png");
    assert_eq!(
        args,
        strs(&[
            "--fast",
            "-m",
            "/models/m.safetensors",
            "-p",
            "a dog; rm -rf /",
            "-o",
            "/cache/out.png",
            "--steps",
            "35",
            "--cfg-scale",
            "7.5",
            "--seed",
            "42",
            "-n",
            "blurry",
            "-W",
            "640",
            "-H",
            "480",
        ])
    );
}

#[test]
fn seed_flag_only_for_a_seed_that_is_set() {
    let ctx = context(None);
    for seed in [-1, -7, i32::MIN] {
        let mut req = request();
        req.seed = seed;
        let args = build_arguments(&ctx, &req, "/cache/out.png");
        assert!(!args.contains(&"--seed".to_string()));
    }
    for seed in [0, 1, 42, i32::MAX] {
        let mut req = request();
        req.seed = seed;
        let args = build_arguments(&ctx, &req, "/cache/out.png");
        assert_eq!(args[10], "--seed");
        assert_eq!(args[11], seed.to_string());
    }
}

#[test]
fn negative_prompt_follows_the_seed() {
    let ctx = context(None);
    let mut req = request();
    req.seed = 3;
    req.negative_prompt = Some("".to_string());
    req.size = "bad".to_string();
    let args = build_arguments(&ctx, &req, "/cache/out.png");
    assert_eq!(&args[10..], &strs(&["--seed", "3", "-n", ""])[..]);
}

#[test]
fn size_without_two_parts_gives_no_size_flags() {
    let ctx = context(None);
    for size in [
        "512", "512x512x1", "", "x", "x512", "512x", "xx", "512X512", "axb", "512xab", "-1x5",
        "5 x5", "5x5 ", "5.0x5", "\u{e9}x\u{4e2d}",
    ] {
        assert!(split_size(size).is_none(), "{:?}", size);
        let mut req = request();
        req.size = size.to_string();
        let args = build_arguments(&ctx, &req, "/cache/out.png");
        assert!(!args.contains(&"-W".to_string()));
        assert!(!args.contains(&"-H".to_string()));
        assert_eq!(args.len(), 10);
    }
}

#[test]
fn size_with_two_parts_gives_both_flags() {
    assert_eq!(split_size("512x512"), Some(("512".to_string(), "512".to_string())));
    assert_eq!(split_size("1024x768"), Some(("1024".to_string(), "768".to_string())));
    assert_eq!(split_size("1x2"), Some(("1".to_string(), "2".to_string())));
    assert_eq!(split_size("0512x007"), Some(("0512".to_string(), "007".to_string())));
    let ctx = context(None);
    let mut req = request();
    req.size = "1024x768".to_string();
    let args = build_arguments(&ctx, &req, "/cache/out.png");
    assert_eq!(&args[10..], &strs(&["-W", "1024", "-H", "768"])[..]);
}
