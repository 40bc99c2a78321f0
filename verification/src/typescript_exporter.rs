//! The export of TypeScript bindings: where the files go, and the index that
//! re-exports each of them.

use crate::line_order::{ascending, sorted_distinct};
use crate::text::{joined, push_joined, texts};
use std::marker::PhantomData;
use vstd::prelude::*;
use vstd::string::*;

verus! {

/// Exports the TypeScript bindings of `T` and of all types that `T` refers to.
pub struct TypescriptExporter<T> {
    /// The directory that the bindings are written to.
    pub dir: String,
    pub phantom: PhantomData<T>,
}

/// The line of the index that re-exports the file at `path`.
pub open spec fn export_line(path: Seq<char>) -> Seq<char> {
    "export * from './"@ + path + "';"@
}

/// The index for the files at `paths`: one line for each file, each line once,
/// the lines in ascending order.
pub open spec fn index_text(paths: Seq<Seq<char>>) -> Seq<char> {
    joined(ascending(paths.map_values(|path: Seq<char>| export_line(path))), "\n"@)
}

/// The index for the files at `output_paths`.
pub fn export_index(output_paths: &Vec<String>) -> (index: String)
    ensures
        index@ == index_text(texts(output_paths@)),
{
    let mut lines: Vec<String> = Vec::new();
    let mut i: usize = 0;
    let ghost wanted = texts(output_paths@).map_values(|path: Seq<char>| export_line(path));
    assert(texts(lines@) =~= wanted.take(0));
    while i < output_paths.len()
        invariant
            i <= output_paths@.len(),
            wanted == texts(output_paths@).map_values(|path: Seq<char>| export_line(path)),
            texts(lines@) == wanted.take(i as int),
        decreases output_paths@.len() - i,
    {
        let mut line = String::from_str("export * from './");
        line.append(output_paths[i].as_str());
        line.append("';");
        let ghost before = lines@;
        lines.push(line);
        proof {
            assert(line@ =~= export_line(output_paths@[i as int]@));
            assert(wanted[i as int] == export_line(texts(output_paths@)[i as int]));
            assert(texts(lines@) =~= texts(before).push(line@));
            assert(wanted.take(i + 1) =~= wanted.take(i as int).push(wanted[i as int]));
        }
        i += 1;
    }
    assert(wanted.take(output_paths@.len() as int) =~= wanted);
    let sorted = sorted_distinct(lines);
    let mut index = String::new();
    push_joined(&mut index, &sorted, "\n");
    assert(index@ =~= index_text(texts(output_paths@)));
    index
}

impl<T> TypescriptExporter<T> {
    /// An exporter that writes to `target/typescript`.
    pub fn new() -> (exporter: Self)
        ensures
            exporter.dir@ == "target/typescript"@,
    {
        TypescriptExporter { dir: String::from_str("target/typescript"), phantom: PhantomData }
    }

    /// The file that holds the index.
    pub fn index_path(&self) -> (path: String)
        ensures
            path@ == self.dir@ + "/index.ts"@,
    {
        let mut path = self.dir.clone();
        path.append("/index.ts");
        path
    }

    /// The index for the files at `output_paths`.
    pub fn export_index(&self, output_paths: &Vec<String>) -> (index: String)
        ensures
            index@ == index_text(texts(output_paths@)),
    {
        export_index(output_paths)
    }
}

} // verus!
