//! What a web build needs to know before it runs its tools: the output paths
//! and the arguments of each tool.

use crate::text::texts;
use vstd::prelude::*;
use vstd::string::*;

verus! {

/// The command that builds an app for the web.
#[derive(Debug, Clone, Copy)]
pub struct BuildBeetmashWeb;

impl BuildBeetmashWeb {
    /// The name of the command.
    pub fn name(&self) -> (name: &'static str)
        ensures
            name@ == "build"@,
    {
        "build"
    }
}

/// The settings of one web build.
#[derive(Debug, Clone)]
pub struct Args {
    pub crate_name: Option<String>,
    pub example: Option<String>,
    pub app_name: String,
    pub release: bool,
    pub out_dir: String,
    pub copy_local: Option<String>,
    pub copy_scenes: Option<String>,
    pub copy_registries: Option<String>,
    pub skip_build: bool,
}

/// What an optional text says.
pub open spec fn text_of(text: Option<String>) -> Option<Seq<char>> {
    match text {
        Some(text) => Some(text@),
        None => None,
    }
}

impl Args {
    /// The name of the app: the example's name, `main` where no example is built.
    pub open spec fn app_name_of(example: Option<Seq<char>>) -> Seq<char> {
        match example {
            Some(example) => example,
            None => "main"@,
        }
    }

    /// The settings for the given choices; the app is named after the example.
    pub fn new(
        example: Option<String>,
        crate_name: Option<String>,
        out_dir: String,
        release: bool,
        skip_build: bool,
        copy_local: Option<String>,
        copy_scenes: Option<String>,
        copy_registries: Option<String>,
    ) -> (args: Self)
        ensures
            args.app_name@ == Self::app_name_of(text_of(example)),
            args.example == example,
            args.crate_name == crate_name,
            args.out_dir == out_dir,
            args.release == release,
            args.skip_build == skip_build,
            args.copy_local == copy_local,
            args.copy_scenes == copy_scenes,
            args.copy_registries == copy_registries,
    {
        let app_name = match &example {
            Some(example) => example.clone(),
            None => String::from_str("main"),
        };
        Args {
            crate_name,
            example,
            app_name,
            release,
            out_dir,
            copy_local,
            copy_scenes,
            copy_registries,
            skip_build,
        }
    }

    /// The directory of the build profile below the target directory.
    pub open spec fn build_config_text(self) -> Seq<char> {
        if self.release {
            "release"@
        } else {
            "debug"@
        }
    }

    /// The directory of the build profile below the target directory.
    pub fn build_config(&self) -> (config: &'static str)
        ensures
            config@ == self.build_config_text(),
    {
        if self.release {
            "release"
        } else {
            "debug"
        }
    }

    /// The compiled file below the profile's directory.
    pub open spec fn cargo_build_wasm_file_text(self) -> Seq<char> {
        match self.example {
            Some(example) => "examples/"@ + example@ + ".wasm"@,
            None => self.app_name@ + ".wasm"@,
        }
    }

    /// The compiled file below the profile's directory.
    pub fn cargo_build_wasm_file(&self) -> (file: String)
        ensures
            file@ == self.cargo_build_wasm_file_text(),
    {
        match &self.example {
            Some(example) => {
                let mut file = String::from_str("examples/");
                file.append(example.as_str());
                file.append(".wasm");
                file
            },
            None => {
                let mut file = self.app_name.clone();
                file.append(".wasm");
                file
            },
        }
    }

    /// The path of the bound module.
    pub open spec fn wasm_bindgen_path_wasm_text(self) -> Seq<char> {
        self.out_dir@ + "/"@ + self.app_name@ + "_bg.wasm"@
    }

    /// The path of the bound module.
    pub fn wasm_bindgen_path_wasm(&self) -> (path: String)
        ensures
            path@ == self.wasm_bindgen_path_wasm_text(),
    {
        let mut path = self.out_dir.clone();
        path.append("/");
        path.append(self.app_name.as_str());
        path.append("_bg.wasm");
        path
    }

    /// The path of the script that loads the bound module.
    pub open spec fn wasm_bindgen_path_js_text(self) -> Seq<char> {
        self.out_dir@ + "/"@ + self.app_name@ + ".js"@
    }

    /// The path of the script that loads the bound module.
    pub fn wasm_bindgen_path_js(&self) -> (path: String)
        ensures
            path@ == self.wasm_bindgen_path_js_text(),
    {
        let mut path = self.out_dir.clone();
        path.append("/");
        path.append(self.app_name.as_str());
        path.append(".js");
        path
    }

    /// The arguments of the compiler run.
    pub open spec fn cargo_build_args_text(self) -> Seq<Seq<char>> {
        seq!["build"@, "--target"@, "wasm32-unknown-unknown"@] + (match self.crate_name {
            Some(crate_name) => seq!["-p"@, crate_name@],
            None => Seq::empty(),
        }) + (if self.release {
            seq!["--release"@]
        } else {
            Seq::empty()
        }) + (match self.example {
            Some(example) => seq!["--example"@, example@],
            None => Seq::empty(),
        })
    }

    /// The arguments of the compiler run.
    pub fn cargo_build_args(&self) -> (build_args: Vec<String>)
        ensures
            texts(build_args@) == self.cargo_build_args_text(),
    {
        let mut build_args: Vec<String> = Vec::new();
        build_args.push(String::from_str("build"));
        build_args.push(String::from_str("--target"));
        build_args.push(String::from_str("wasm32-unknown-unknown"));
        if let Some(crate_name) = &self.crate_name {
            build_args.push(String::from_str("-p"));
            build_args.push(crate_name.clone());
        }
        if self.release {
            build_args.push(String::from_str("--release"));
        }
        if let Some(example) = &self.example {
            build_args.push(String::from_str("--example"));
            build_args.push(example.clone());
        }
        assert(texts(build_args@) =~= self.cargo_build_args_text());
        build_args
    }

    /// The arguments of the binding run on the compiled file at `wasm_path`.
    pub open spec fn wasm_bindgen_args_text(self, wasm_path: Seq<char>) -> Seq<Seq<char>> {
        seq![
            "--out-name"@,
            self.app_name@,
            "--out-dir"@,
            self.out_dir@,
            "--target"@,
            "web"@,
            "--no-typescript"@,
            wasm_path,
        ]
    }

    /// The arguments of the binding run on the compiled file at `wasm_path`.
    pub fn wasm_bindgen_args(&self, wasm_path: &str) -> (build_args: Vec<String>)
        ensures
            texts(build_args@) == self.wasm_bindgen_args_text(wasm_path@),
    {
        let mut build_args: Vec<String> = Vec::new();
        build_args.push(String::from_str("--out-name"));
        build_args.push(self.app_name.clone());
        build_args.push(String::from_str("--out-dir"));
        build_args.push(self.out_dir.clone());
        build_args.push(String::from_str("--target"));
        build_args.push(String::from_str("web"));
        build_args.push(String::from_str("--no-typescript"));
        build_args.push(String::from_str(wasm_path));
        assert(texts(build_args@) =~= self.wasm_bindgen_args_text(wasm_path@));
        build_args
    }

    /// Whether the build compiles and binds at all.
    pub fn runs_build(&self) -> (runs: bool)
        ensures
            runs == !self.skip_build,
    {
        !self.skip_build
    }

    /// Whether the build shrinks the bound module: release builds only.
    pub fn runs_wasm_opt(&self) -> (runs: bool)
        ensures
            runs == (!self.skip_build && self.release),
    {
        !(self.skip_build || !self.release)
    }

    /// The arguments of the shrinking run: the bound module is rewritten in place.
    pub open spec fn wasm_opt_args_text(self) -> Seq<Seq<char>> {
        seq![
            "-Oz"@,
            "--output"@,
            self.wasm_bindgen_path_wasm_text(),
            self.wasm_bindgen_path_wasm_text(),
        ]
    }

    /// The arguments of the shrinking run: the bound module is rewritten in place.
    pub fn wasm_opt_args(&self) -> (opt_args: Vec<String>)
        ensures
            texts(opt_args@) == self.wasm_opt_args_text(),
    {
        let mut opt_args: Vec<String> = Vec::new();
        opt_args.push(String::from_str("-Oz"));
        opt_args.push(String::from_str("--output"));
        opt_args.push(self.wasm_bindgen_path_wasm());
        opt_args.push(self.wasm_bindgen_path_wasm());
        assert(texts(opt_args@) =~= self.wasm_opt_args_text());
        opt_args
    }
}

} // verus!
