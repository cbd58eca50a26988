use vstd::prelude::*;
use crate::ast::{Import, ImportSymbols, Item, Package, SubPackage};

verus! {

// The symbol pass: collects, for one package of the arena, the names it
// defines, the names it imports, and the names it exports. Classes and
// constant bindings define names; imports bring in what their package
// exports, or the listed subset. A package being resolved is marked, so
// an import cycle is a named error instead of a hang.
/// How the name-resolution pass can fail.
#[derive(Clone, Copy, Debug, PartialEq, Eq, Structural)]
pub enum ResolveError {
    /// A package imports itself, directly or through other packages.
    ImportCycle,
    /// An import still holds an unresolved path; the import-resolution
    /// pass must run before the symbol pass.
    UnresolvedImport,
    /// An import form the pass does not handle yet (importing a whole
    /// package under one name).
    UnsupportedImport,
    /// An import names a package index outside the arena.
    PackageNotFound,
}

/// The three name sets of a package. Each set keeps first-insertion
/// order and holds no name twice.
#[derive(Debug, PartialEq)]
pub struct Symbols {
    pub defined: Vec<String>,
    pub imported: Vec<String>,
    pub exported: Vec<String>,
}

pub open spec fn names_model(v: Seq<String>) -> Seq<Seq<char>> {
    v.map_values(|s: String| s@)
}

pub open spec fn spec_insert_name(s: Seq<Seq<char>>, n: Seq<char>) -> Seq<Seq<char>> {
    if s.contains(n) {
        s
    } else {
        s.push(n)
    }
}

/// The model of the three sets: defined, imported, exported.
pub type SymModel = (Seq<Seq<char>>, Seq<Seq<char>>, Seq<Seq<char>>);

/// Adds the names one item contributes: classes and constant bindings
/// define their name, and export it when marked exported.
pub open spec fn spec_item_syms(acc: SymModel, item: Item) -> SymModel {
    match item {
        Item::Class(c) => {
            let d = spec_insert_name(acc.0, c.name.name@);
            let e = if c.exported {
                spec_insert_name(acc.2, c.name.name@)
            } else {
                acc.2
            };
            (d, acc.1, e)
        },
        Item::Constant(c) => {
            let d = spec_insert_name(acc.0, c.name.name@);
            let e = if c.exported {
                spec_insert_name(acc.2, c.name.name@)
            } else {
                acc.2
            };
            (d, acc.1, e)
        },
        _ => acc,
    }
}

pub open spec fn spec_items_syms(acc: SymModel, items: Seq<Item>, k: int) -> SymModel
    decreases items.len() - k,
{
    if 0 <= k < items.len() {
        spec_items_syms(spec_item_syms(acc, items[k]), items, k + 1)
    } else {
        acc
    }
}

pub open spec fn spec_insert_all(s: Seq<Seq<char>>, ns: Seq<Seq<char>>, k: int) -> Seq<Seq<char>>
    decreases ns.len() - k,
{
    if 0 <= k < ns.len() {
        spec_insert_all(spec_insert_name(s, ns[k]), ns, k + 1)
    } else {
        s
    }
}

pub open spec fn idents_model(ids: Seq<crate::ast::Ident>) -> Seq<Seq<char>> {
    ids.map_values(|id: crate::ast::Ident| id.name@)
}

/// The whole pass for the package `idx` of the arena: `in_prog` marks
/// the packages currently being resolved, `fuel` bounds the recursion
/// depth. The result lists defined, imported and exported names.
pub open spec fn spec_resolve(
    arena: Seq<Package>,
    idx: int,
    in_prog: Seq<bool>,
    fuel: nat,
) -> Result<SymModel, ResolveError>
    decreases fuel, 0int, 0int,
{
    if !(0 <= idx < arena.len()) || in_prog.len() != arena.len() {
        Err(ResolveError::PackageNotFound)
    } else if in_prog[idx] {
        Err(ResolveError::ImportCycle)
    } else if fuel == 0 {
        Err(ResolveError::ImportCycle)
    } else {
        let marked = in_prog.update(idx, true);
        match spec_imports_syms(
            arena,
            arena[idx].imports@,
            0,
            (Seq::empty(), Seq::empty(), Seq::empty()),
            marked,
            (fuel - 1) as nat,
        ) {
            Result::Ok(acc) => Ok(spec_items_syms(acc, arena[idx].items@, 0)),
            Result::Err(e) => Err(e),
        }
    }
}

/// Folds the imports of a package, in order, into the accumulated sets.
pub open spec fn spec_imports_syms(
    arena: Seq<Package>,
    imports: Seq<Import>,
    k: int,
    acc: SymModel,
    in_prog: Seq<bool>,
    fuel: nat,
) -> Result<SymModel, ResolveError>
    decreases fuel, 2int, imports.len() - k,
{
    if 0 <= k < imports.len() {
        match spec_import_syms(arena, imports[k], acc, in_prog, fuel) {
            Result::Ok(acc2) => spec_imports_syms(arena, imports, k + 1, acc2, in_prog, fuel),
            Result::Err(e) => Err(e),
        }
    } else {
        Ok(acc)
    }
}

/// One import: a resolved package contributes what it exports (for a
/// whole-package import) or the listed names; a resource contributes the
/// listed names only; an unresolved path is an error, and so is an
/// import under one name, which the pass does not handle yet.
pub open spec fn spec_import_syms(
    arena: Seq<Package>,
    imp: Import,
    acc: SymModel,
    in_prog: Seq<bool>,
    fuel: nat,
) -> Result<SymModel, ResolveError>
    decreases fuel, 1int, 0int,
{
    match imp.package {
        SubPackage::UnresolvedPath(_) => Err(ResolveError::UnresolvedImport),
        SubPackage::Package(sub) => {
            match spec_resolve(arena, sub as int, in_prog, fuel) {
                Result::Ok(sub_syms) => {
                    match imp.symbols {
                        ImportSymbols::All => Ok(
                            (acc.0, spec_insert_all(acc.1, sub_syms.2, 0), acc.2),
                        ),
                        ImportSymbols::Only(values) => Ok(
                            (acc.0, spec_insert_all(acc.1, idents_model(values@), 0), acc.2),
                        ),
                        ImportSymbols::AllAsIdent(_) => Err(ResolveError::UnsupportedImport),
                    }
                },
                Result::Err(e) => Err(e),
            }
        },
        SubPackage::ResourcePath(_) => {
            match imp.symbols {
                ImportSymbols::All => Ok(acc),
                ImportSymbols::Only(values) => Ok(
                    (acc.0, spec_insert_all(acc.1, idents_model(values@), 0), acc.2),
                ),
                ImportSymbols::AllAsIdent(_) => Err(ResolveError::UnsupportedImport),
            }
        },
    }
}

/// Appends a name unless the set already holds it.
fn insert_name(v: &mut Vec<String>, n: String)
    ensures
        names_model(final(v)@) == spec_insert_name(names_model(old(v)@), n@),
{
    let mut i: usize = 0;
    while i < v.len()
        invariant
            i <= v@.len(),
            *v == *old(v),
            forall|j: int| 0 <= j < i ==> names_model(v@)[j] != n@,
        decreases v@.len() - i,
    {
        if v[i].eq(&n) {
            proof {
                assert(names_model(v@)[i as int] == n@);
                assert(names_model(v@).contains(n@));
            }
            return ;
        }
        i = i + 1;
    }
    proof {
        assert(forall|j: int| 0 <= j < names_model(v@).len() ==> names_model(v@)[j] != n@);
        assert(!names_model(v@).contains(n@));
    }
    let ghost before = v@;
    v.push(n);
    proof {
        assert(names_model(v@) =~= names_model(before).push(n@));
    }
}

/// Appends each of the names, keeping the set free of repeats.
fn insert_names(v: &mut Vec<String>, ns: &Vec<String>)
    ensures
        names_model(final(v)@) == spec_insert_all(names_model(old(v)@), names_model(ns@), 0),
{
    let mut k: usize = 0;
    while k < ns.len()
        invariant
            k <= ns@.len(),
            spec_insert_all(names_model(old(v)@), names_model(ns@), 0) == spec_insert_all(
                names_model(v@),
                names_model(ns@),
                k as int,
            ),
        decreases ns@.len() - k,
    {
        insert_name(v, ns[k].clone());
        k = k + 1;
    }
}

/// Collects the defined, imported and exported names of the package
/// `root` in the arena, exactly as `spec_resolve` says, with recursion
/// depth bounded by the arena size.
pub fn pass_resolve_symbols(arena: &Vec<Package>, root: usize) -> (r: Result<
    Symbols,
    ResolveError,
>)
    ensures
        match spec_resolve(arena@, root as int, Seq::new(arena@.len(), |i: int| false), arena@.len())
        {
            Result::Ok(m) => r matches Ok(s) && names_model(s.defined@) == m.0 && names_model(
                s.imported@,
            ) == m.1 && names_model(s.exported@) == m.2,
            Result::Err(e) => r == Err::<Symbols, ResolveError>(e),
        },
{
    let mut in_prog: Vec<bool> = Vec::new();
    let n = arena.len();
    let mut i: usize = 0;
    while i < n
        invariant
            i <= n,
            n == arena@.len(),
            in_prog@.len() == i,
            forall|j: int| 0 <= j < i ==> in_prog@[j] == false,
        decreases n - i,
    {
        in_prog.push(false);
        i = i + 1;
    }
    proof {
        assert(in_prog@ =~= Seq::new(arena@.len(), |i: int| false));
    }
    resolve_at(arena, root, &mut in_prog, n)
}

fn resolve_at(arena: &Vec<Package>, idx: usize, in_prog: &mut Vec<bool>, fuel: usize) -> (r:
    Result<Symbols, ResolveError>)
    ensures
        final(in_prog)@ == old(in_prog)@,
        match spec_resolve(arena@, idx as int, old(in_prog)@, fuel as nat) {
            Result::Ok(m) => r matches Ok(s) && names_model(s.defined@) == m.0 && names_model(
                s.imported@,
            ) == m.1 && names_model(s.exported@) == m.2,
            Result::Err(e) => r == Err::<Symbols, ResolveError>(e),
        },
    decreases fuel, 1int, 0int,
{
    if idx >= arena.len() || in_prog.len() != arena.len() {
        return Err(ResolveError::PackageNotFound);
    }
    if in_prog[idx] {
        return Err(ResolveError::ImportCycle);
    }
    if fuel == 0 {
        return Err(ResolveError::ImportCycle);
    }
    in_prog.set(idx, true);
    let ghost marked = in_prog@;
    let mut syms = Symbols { defined: Vec::new(), imported: Vec::new(), exported: Vec::new() };
    let pkg = &arena[idx];
    let mut k: usize = 0;
    let ghost acc0: SymModel = (
        Seq::<Seq<char>>::empty(),
        Seq::<Seq<char>>::empty(),
        Seq::<Seq<char>>::empty(),
    );
    proof {
        assert(names_model(syms.defined@) =~= Seq::<Seq<char>>::empty());
        assert(names_model(syms.imported@) =~= Seq::<Seq<char>>::empty());
        assert(names_model(syms.exported@) =~= Seq::<Seq<char>>::empty());
    }
    while k < pkg.imports.len()
        invariant
            k <= pkg.imports@.len(),
            idx < arena@.len(),
            old(in_prog)@.len() == arena@.len(),
            old(in_prog)@[idx as int] == false,
            in_prog@ == marked,
            marked == old(in_prog)@.update(idx as int, true),
            marked.len() == arena@.len(),
            pkg == &arena@[idx as int],
            fuel >= 1,
            acc0 == (
                Seq::<Seq<char>>::empty(),
                Seq::<Seq<char>>::empty(),
                Seq::<Seq<char>>::empty(),
            ),
            spec_imports_syms(
                arena@,
                pkg.imports@,
                0,
                acc0,
                marked,
                (fuel - 1) as nat,
            ) == spec_imports_syms(
                arena@,
                pkg.imports@,
                k as int,
                (
                    names_model(syms.defined@),
                    names_model(syms.imported@),
                    names_model(syms.exported@),
                ),
                marked,
                (fuel - 1) as nat,
            ),
        decreases pkg.imports@.len() - k,
    {
        let imp = &pkg.imports[k];
        match &imp.package {
            SubPackage::UnresolvedPath(_) => {
                proof {
                    let cur = (
                        names_model(syms.defined@),
                        names_model(syms.imported@),
                        names_model(syms.exported@),
                    );
                    assert(pkg.imports@[k as int].package is UnresolvedPath);
                    assert(spec_import_syms(
                        arena@,
                        pkg.imports@[k as int],
                        cur,
                        marked,
                        (fuel - 1) as nat,
                    ) == Err::<SymModel, ResolveError>(ResolveError::UnresolvedImport));
                    assert(spec_imports_syms(
                        arena@,
                        pkg.imports@,
                        k as int,
                        cur,
                        marked,
                        (fuel - 1) as nat,
                    ) == Err::<SymModel, ResolveError>(ResolveError::UnresolvedImport));
                    assert(spec_resolve(arena@, idx as int, old(in_prog)@, fuel as nat)
                        == Err::<SymModel, ResolveError>(ResolveError::UnresolvedImport));
                }
                in_prog.set(idx, false);
                proof {
                    assert(in_prog@ =~= old(in_prog)@);
                }
                return Err(ResolveError::UnresolvedImport);
            },
            SubPackage::Package(sub) => {
                let sub_syms = match resolve_at(arena, *sub, in_prog, fuel - 1) {
                    Ok(s) => s,
                    Err(e) => {
                        in_prog.set(idx, false);
                        proof {
                            assert(in_prog@ =~= old(in_prog)@);
                        }
                        return Err(e);
                    },
                };
                match &imp.symbols {
                    ImportSymbols::All => {
                        insert_names(&mut syms.imported, &sub_syms.exported);
                    },
                    ImportSymbols::Only(values) => {
                        let names = collect_names(values);
                        insert_names(&mut syms.imported, &names);
                    },
                    ImportSymbols::AllAsIdent(_) => {
                        in_prog.set(idx, false);
                        proof {
                            assert(in_prog@ =~= old(in_prog)@);
                        }
                        return Err(ResolveError::UnsupportedImport);
                    },
                }
            },
            SubPackage::ResourcePath(_) => {
                match &imp.symbols {
                    ImportSymbols::All => {},
                    ImportSymbols::Only(values) => {
                        let names = collect_names(values);
                        insert_names(&mut syms.imported, &names);
                    },
                    ImportSymbols::AllAsIdent(_) => {
                        in_prog.set(idx, false);
                        proof {
                            assert(in_prog@ =~= old(in_prog)@);
                        }
                        return Err(ResolveError::UnsupportedImport);
                    },
                }
            },
        }
        k = k + 1;
    }
    // The items, in order.
    proof {
        assert(spec_imports_syms(
            arena@,
            arena@[idx as int].imports@,
            0,
            (Seq::<Seq<char>>::empty(), Seq::<Seq<char>>::empty(), Seq::<Seq<char>>::empty()),
            old(in_prog)@.update(idx as int, true),
            (fuel - 1) as nat,
        ) == Ok::<SymModel, ResolveError>(
            (names_model(syms.defined@), names_model(syms.imported@), names_model(syms.exported@)),
        ));
        assert(spec_resolve_imports_part(arena@, idx as int, old(in_prog)@, fuel as nat) == (
            names_model(syms.defined@),
            names_model(syms.imported@),
            names_model(syms.exported@),
        ));
    }
    let mut k2: usize = 0;
    while k2 < pkg.items.len()
        invariant
            k2 <= pkg.items@.len(),
            idx < arena@.len(),
            old(in_prog)@.len() == arena@.len(),
            old(in_prog)@[idx as int] == false,
            in_prog@ == marked,
            marked == old(in_prog)@.update(idx as int, true),
            pkg == &arena@[idx as int],
            fuel >= 1,
            spec_items_syms(
                spec_resolve_imports_part(arena@, idx as int, old(in_prog)@, fuel as nat),
                pkg.items@,
                0,
            ) == spec_items_syms(
                (
                    names_model(syms.defined@),
                    names_model(syms.imported@),
                    names_model(syms.exported@),
                ),
                pkg.items@,
                k2 as int,
            ),
        decreases pkg.items@.len() - k2,
    {
        match &pkg.items[k2] {
            Item::Class(c) => {
                insert_name(&mut syms.defined, c.name.name.clone());
                if c.exported {
                    insert_name(&mut syms.exported, c.name.name.clone());
                }
            },
            Item::Constant(c) => {
                insert_name(&mut syms.defined, c.name.name.clone());
                if c.exported {
                    insert_name(&mut syms.exported, c.name.name.clone());
                }
            },
            _ => {},
        }
        k2 = k2 + 1;
    }
    in_prog.set(idx, false);
    proof {
        assert(in_prog@ =~= old(in_prog)@);
    }
    Ok(syms)
}

/// The accumulated sets right after the imports of package `idx`, when
/// they all resolve; meaningful only in that case.
pub open spec fn spec_resolve_imports_part(
    arena: Seq<Package>,
    idx: int,
    in_prog: Seq<bool>,
    fuel: nat,
) -> SymModel {
    if fuel > 0 && 0 <= idx < arena.len() {
        match spec_imports_syms(
            arena,
            arena[idx].imports@,
            0,
            (Seq::empty(), Seq::empty(), Seq::empty()),
            in_prog.update(idx, true),
            (fuel - 1) as nat,
        ) {
            Result::Ok(acc) => acc,
            Result::Err(_) => (Seq::empty(), Seq::empty(), Seq::empty()),
        }
    } else {
        (Seq::empty(), Seq::empty(), Seq::empty())
    }
}

/// The names of an identifier list, in order.
fn collect_names(values: &Vec<crate::ast::Ident>) -> (r: Vec<String>)
    ensures
        names_model(r@) == idents_model(values@),
{
    let mut names: Vec<String> = Vec::new();
    let mut j: usize = 0;
    proof {
        assert(names_model(names@) =~= idents_model(values@).take(0));
    }
    while j < values.len()
        invariant
            j <= values@.len(),
            names_model(names@) == idents_model(values@).take(j as int),
        decreases values@.len() - j,
    {
        let ghost before = names@;
        let nm = String::from_str(values[j].name.as_str());
        names.push(nm);
        proof {
            assert(names_model(before).len() == before.len());
            assert(idents_model(values@).take(j as int).len() == j as int);
            assert(before.len() == j);
            assert(names@ == before.push(nm));
            assert(names@[j as int] == nm);
            assert(nm@ == values@[j as int].name@);
            assert(names@[j as int]@ == values@[j as int].name@);
            assert(names_model(names@) =~= names_model(before).push(values@[j as int].name@));
            assert(idents_model(values@).take(j + 1) =~= idents_model(values@).take(
                j as int,
            ).push(values@[j as int].name@));
        }
        j = j + 1;
    }
    proof {
        assert(idents_model(values@).take(values@.len() as int) =~= idents_model(values@));
    }
    names
}

} // verus!
