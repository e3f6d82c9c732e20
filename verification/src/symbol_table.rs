//! The stack of nested scopes that answers what a name stands for.
use vstd::prelude::*;
use crate::ast::FunctionDef;
use crate::types::{Ty, Type};

verus! {

/// What is recorded about a declared type, as a mathematical value.
pub struct TypeInfoSpec {
    pub name: Seq<char>,
    /// Each property's name and type, in declaration order.
    pub properties: Seq<(Seq<char>, Ty)>,
    /// Each method's name and definition, in declaration order.
    pub methods: Seq<(Seq<char>, FunctionDef)>,
}

/// What a name stands for, as a mathematical value.
pub enum Symbol {
    Variable { var_type: Ty },
    Function { return_type: Ty, param_types: Seq<Ty> },
    Type { type_info: TypeInfoSpec },
}

/// One scope: what each name bound in it stands for.
pub type ScopeSpec = Map<Seq<char>, Symbol>;

#[derive(Debug)]
pub struct TypeInfo {
    pub name: String,
    pub properties: Vec<(String, Type)>,
    pub methods: Vec<(String, FunctionDef)>,
}

#[derive(Debug)]
pub enum SymbolInfo {
    Variable { var_type: Type },
    Function { return_type: Type, param_types: Vec<Type> },
    Type { type_info: TypeInfo },
}

/// The types of a list, each as a mathematical value.
pub open spec fn type_views(types: Seq<Type>) -> Seq<Ty> {
    Seq::new(types.len(), |i: int| types[i]@)
}

pub open spec fn property_views(properties: Seq<(String, Type)>) -> Seq<(Seq<char>, Ty)> {
    Seq::new(properties.len(), |i: int| (properties[i].0@, properties[i].1@))
}

pub open spec fn method_views(methods: Seq<(String, FunctionDef)>) -> Seq<(Seq<char>, FunctionDef)> {
    Seq::new(methods.len(), |i: int| (methods[i].0@, methods[i].1))
}

/// The names of a list of methods, in order.
pub open spec fn method_names(methods: Seq<(Seq<char>, FunctionDef)>) -> Seq<Seq<char>> {
    Seq::new(methods.len(), |i: int| methods[i].0)
}

impl View for TypeInfo {
    type V = TypeInfoSpec;

    open spec fn view(&self) -> TypeInfoSpec {
        TypeInfoSpec {
            name: self.name@,
            properties: property_views(self.properties@),
            methods: method_views(self.methods@),
        }
    }
}

impl View for SymbolInfo {
    type V = Symbol;

    open spec fn view(&self) -> Symbol {
        match self {
            SymbolInfo::Variable { var_type } => Symbol::Variable { var_type: var_type@ },
            SymbolInfo::Function { return_type, param_types } => Symbol::Function {
                return_type: return_type@,
                param_types: type_views(param_types@),
            },
            SymbolInfo::Type { type_info } => Symbol::Type { type_info: type_info@ },
        }
    }
}

/// The scope that results from recording `entries` in order, a later entry
/// replacing an earlier one of the same name.
pub open spec fn scope_map(entries: Seq<(String, SymbolInfo)>) -> ScopeSpec
    decreases entries.len(),
{
    if entries.len() == 0 {
        Map::empty()
    } else {
        scope_map(entries.drop_last()).insert(entries.last().0@, entries.last().1@)
    }
}

/// What `name` stands for in the innermost scope that binds it.
pub open spec fn resolve<V>(scopes: Seq<Map<Seq<char>, V>>, name: Seq<char>) -> Option<V>
    decreases scopes.len(),
{
    if scopes.len() == 0 {
        None
    } else if scopes.last().contains_key(name) {
        Some(scopes.last()[name])
    } else {
        resolve(scopes.drop_last(), name)
    }
}

/// The stack after `name` is bound to `symbol` in its innermost scope. An
/// empty stack has no scope to bind in and stays empty.
pub open spec fn bind<V>(scopes: Seq<Map<Seq<char>, V>>, name: Seq<char>, symbol: V) -> Seq<
    Map<Seq<char>, V>,
> {
    if scopes.len() == 0 {
        scopes
    } else {
        scopes.update(scopes.len() - 1, scopes.last().insert(name, symbol))
    }
}

/// The stack after its innermost scope is left.
pub open spec fn leave<V>(scopes: Seq<Map<Seq<char>, V>>) -> Seq<Map<Seq<char>, V>> {
    if scopes.len() == 0 {
        scopes
    } else {
        scopes.drop_last()
    }
}

/// The declared type that `name` resolves to, if it resolves to one.
pub open spec fn resolve_type(scopes: Seq<ScopeSpec>, name: Seq<char>) -> Option<TypeInfoSpec> {
    match resolve(scopes, name) {
        Some(Symbol::Type { type_info }) => Some(type_info),
        _ => None,
    }
}

/// The position of the first property called `name`, if there is one.
pub open spec fn first_property(properties: Seq<(Seq<char>, Ty)>, name: Seq<char>) -> Option<int>
    decreases properties.len(),
{
    if properties.len() == 0 {
        None
    } else if properties[0].0 == name {
        Some(0)
    } else {
        match first_property(properties.skip(1), name) {
            Some(i) => Some(i + 1),
            None => None,
        }
    }
}

/// The name of the machine type that holds a value of type `ty`.
pub open spec fn storage_type(ty: Ty) -> Seq<char> {
    match ty {
        Ty::Number => "i32"@,
        Ty::Boolean => "i1"@,
        _ => "i8*"@,
    }
}

/// A name's last entry decides what the scope holds for it.
proof fn lemma_scope_last_wins(entries: Seq<(String, SymbolInfo)>, name: Seq<char>, i: int)
    requires
        0 <= i < entries.len(),
        entries[i].0@ == name,
        forall|j: int| i < j < entries.len() ==> (#[trigger] entries[j]).0@ != name,
    ensures
        scope_map(entries).contains_key(name),
        scope_map(entries)[name] == entries[i].1@,
    decreases entries.len(),
{
    if i < entries.len() - 1 {
        assert(entries.last() == entries[entries.len() - 1]);
        lemma_scope_last_wins(entries.drop_last(), name, i);
    }
}

/// A name with no entry is not in the scope.
proof fn lemma_scope_absent(entries: Seq<(String, SymbolInfo)>, name: Seq<char>)
    requires
        forall|j: int| 0 <= j < entries.len() ==> (#[trigger] entries[j]).0@ != name,
    ensures
        !scope_map(entries).contains_key(name),
    decreases entries.len(),
{
    if entries.len() > 0 {
        assert(entries.last() == entries[entries.len() - 1]);
        lemma_scope_absent(entries.drop_last(), name);
    }
}

/// Names that no scope above `keep` binds resolve as they do in the first
/// `keep` scopes.
pub proof fn lemma_resolve_skips<V>(scopes: Seq<Map<Seq<char>, V>>, name: Seq<char>, keep: int)
    requires
        0 <= keep <= scopes.len(),
        forall|j: int| keep <= j < scopes.len() ==> !(#[trigger] scopes[j]).contains_key(name),
    ensures
        resolve(scopes, name) == resolve(scopes.take(keep), name),
    decreases scopes.len(),
{
    if keep < scopes.len() {
        assert(scopes.last() == scopes[scopes.len() - 1]);
        lemma_resolve_skips(scopes.drop_last(), name, keep);
        assert(scopes.drop_last().take(keep) =~= scopes.take(keep));
    } else {
        assert(scopes.take(keep) =~= scopes);
    }
}

fn find_in_scope<'a>(scope: &'a Vec<(String, SymbolInfo)>, name: &str) -> (r: Option<&'a SymbolInfo>)
    ensures
        match r {
            Some(info) => scope_map(scope@).contains_key(name@) && scope_map(scope@)[name@]
                == info@,
            None => !scope_map(scope@).contains_key(name@),
        },
{
    let wanted = name.to_owned();
    let mut i: usize = scope.len();
    while i > 0
        invariant
            i <= scope.len(),
            wanted@ == name@,
            forall|j: int| i <= j < scope.len() ==> (#[trigger] scope@[j]).0@ != name@,
        decreases i,
    {
        i -= 1;
        if scope[i].0 == wanted {
            proof {
                lemma_scope_last_wins(scope@, name@, i as int);
            }
            return Some(&scope[i].1);
        }
    }
    proof {
        lemma_scope_absent(scope@, name@);
    }
    None
}

#[derive(Debug)]
pub struct SymbolTable {
    scopes: Vec<Vec<(String, SymbolInfo)>>,
}

impl View for SymbolTable {
    type V = Seq<ScopeSpec>;

    closed spec fn view(&self) -> Seq<ScopeSpec> {
        Seq::new(self.scopes@.len(), |i: int| scope_map(self.scopes@[i]@))
    }
}

impl SymbolTable {
    /// A table with one empty scope, the global one.
    pub fn new() -> (t: Self)
        ensures
            t@ == seq![Map::<Seq<char>, Symbol>::empty()],
    {
        let mut scopes: Vec<Vec<(String, SymbolInfo)>> = Vec::new();
        scopes.push(Vec::new());
        let t = SymbolTable { scopes };
        assert(t@ =~= seq![Map::<Seq<char>, Symbol>::empty()]);
        t
    }

    /// How many scopes are open.
    pub fn depth(&self) -> (d: usize)
        ensures
            d == self@.len(),
    {
        self.scopes.len()
    }

    pub fn enter_scope(&mut self)
        ensures
            final(self)@ == old(self)@.push(Map::empty()),
    {
        self.scopes.push(Vec::new());
        assert(self@ =~= old(self)@.push(Map::empty()));
    }

    pub fn exit_scope(&mut self)
        ensures
            final(self)@ == leave(old(self)@),
    {
        self.scopes.pop();
        assert(self@ =~= leave(old(self)@));
    }

    /// Binds `name` in the innermost scope, shadowing any outer binding and
    /// replacing an earlier one in that scope.
    pub fn insert(&mut self, name: String, info: SymbolInfo)
        ensures
            final(self)@ == bind(old(self)@, name@, info@),
    {
        let n = self.scopes.len();
        if n > 0 {
            let mut scope = self.scopes.pop().unwrap();
            let ghost before = scope@;
            scope.push((name, info));
            assert(scope@.drop_last() =~= before);
            self.scopes.push(scope);
            assert(self@ =~= bind(old(self)@, name@, info@));
        }
    }

    /// What `name` stands for, searching from the innermost scope outwards.
    pub fn lookup(&self, name: &str) -> (r: Option<&SymbolInfo>)
        ensures
            match r {
                Some(info) => resolve(self@, name@) == Some(info@),
                None => resolve(self@, name@) is None,
            },
    {
        let mut i: usize = self.scopes.len();
        while i > 0
            invariant
                i <= self.scopes.len(),
                forall|j: int| i <= j < self@.len() ==> !(#[trigger] self@[j]).contains_key(name@),
            decreases i,
        {
            i -= 1;
            match find_in_scope(&self.scopes[i], name) {
                Some(info) => {
                    proof {
                        lemma_resolve_skips(self@, name@, i + 1);
                        assert(self@.take(i + 1).last() == self@[i as int]);
                    }
                    return Some(info);
                },
                None => {},
            }
        }
        proof {
            lemma_resolve_skips(self@, name@, 0);
        }
        None
    }

    /// Declares a type in the innermost scope.
    pub fn insert_type(
        &mut self,
        name: String,
        properties: Vec<(String, Type)>,
        methods: Vec<(String, FunctionDef)>,
    )
        ensures
            final(self)@ == bind(
                old(self)@,
                name@,
                Symbol::Type {
                    type_info: TypeInfoSpec {
                        name: name@,
                        properties: property_views(properties@),
                        methods: method_views(methods@),
                    },
                },
            ),
    {
        let type_info = TypeInfo { name: name.clone(), properties, methods };
        self.insert(name, SymbolInfo::Type { type_info });
    }

    pub fn has_type(&self, name: &str) -> (b: bool)
        ensures
            b == resolve_type(self@, name@).is_some(),
    {
        match self.lookup(name) {
            Some(SymbolInfo::Type { .. }) => true,
            _ => false,
        }
    }

    pub fn get_type(&self, name: &str) -> (r: Option<&TypeInfo>)
        ensures
            match r {
                Some(info) => resolve_type(self@, name@) == Some(info@),
                None => resolve_type(self@, name@) is None,
            },
    {
        match self.lookup(name) {
            Some(SymbolInfo::Type { type_info }) => Some(type_info),
            _ => None,
        }
    }

    /// Whether `of_type` is a declared type with a property `prop_name`.
    pub fn has_property(&self, of_type: &str, prop_name: &str) -> (b: bool)
        ensures
            b == match resolve_type(self@, of_type@) {
                Some(info) => first_property(info.properties, prop_name@).is_some(),
                None => false,
            },
    {
        match self.get_type(of_type) {
            Some(info) => find_property(&info.properties, prop_name).is_some(),
            None => false,
        }
    }

    /// Whether `of_type` is a declared type with a method `method_name`.
    pub fn has_method(&self, of_type: &str, method_name: &str) -> (b: bool)
        ensures
            b == match resolve_type(self@, of_type@) {
                Some(info) => method_names(info.methods).contains(method_name@),
                None => false,
            },
    {
        match self.get_type(of_type) {
            Some(info) => has_method_named(&info.methods, method_name),
            None => false,
        }
    }

    /// The position of property `prop_name` in `of_type`; zero when the
    /// type or the property is unknown.
    pub fn property_index(&self, of_type: &str, prop_name: &str) -> (i: usize)
        ensures
            i == match resolve_type(self@, of_type@) {
                Some(info) => match first_property(info.properties, prop_name@) {
                    Some(at) => at,
                    None => 0,
                },
                None => 0,
            },
    {
        match self.get_type(of_type) {
            Some(info) => match find_property(&info.properties, prop_name) {
                Some(at) => at,
                None => 0,
            },
            None => 0,
        }
    }

    /// The machine type that holds property `prop_name` of `of_type`; a
    /// pointer when the type or the property is unknown.
    pub fn property_llvm_type(&self, of_type: &str, prop_name: &str) -> (t: &'static str)
        ensures
            t@ == match resolve_type(self@, of_type@) {
                Some(info) => match first_property(info.properties, prop_name@) {
                    Some(at) => storage_type(info.properties[at].1),
                    None => "i8*"@,
                },
                None => "i8*"@,
            },
    {
        match self.get_type(of_type) {
            Some(info) => match find_property(&info.properties, prop_name) {
                Some(at) => match &info.properties[at].1 {
                    Type::Number => "i32",
                    Type::Boolean => "i1",
                    _ => "i8*",
                },
                None => "i8*",
            },
            None => "i8*",
        }
    }
}

/// `first_property` of a list is decided by the entries from `from` on when
/// no earlier entry has the name.
proof fn lemma_first_property_from(properties: Seq<(Seq<char>, Ty)>, name: Seq<char>, from: int)
    requires
        0 <= from <= properties.len(),
        forall|j: int| 0 <= j < from ==> (#[trigger] properties[j]).0 != name,
    ensures
        first_property(properties, name) == match first_property(properties.skip(from), name) {
            Some(i) => Some(i + from),
            None => None,
        },
    decreases from,
{
    if from == 0 {
        assert(properties.skip(0) =~= properties);
    } else {
        lemma_first_property_from(properties, name, from - 1);
        assert(properties.skip(from - 1).skip(1) =~= properties.skip(from));
        assert(properties.skip(from - 1)[0] == properties[from - 1]);
    }
}

fn has_method_named(methods: &Vec<(String, FunctionDef)>, name: &str) -> (b: bool)
    ensures
        b == method_names(method_views(methods@)).contains(name@),
{
    let wanted = name.to_owned();
    let ghost names = method_names(method_views(methods@));
    let mut i: usize = 0;
    while i < methods.len()
        invariant
            i <= methods.len(),
            wanted@ == name@,
            names == method_names(method_views(methods@)),
            forall|j: int| 0 <= j < i ==> #[trigger] names[j] != name@,
        decreases methods.len() - i,
    {
        if methods[i].0 == wanted {
            assert(names[i as int] == name@);
            return true;
        }
        i += 1;
    }
    false
}

fn find_property(properties: &Vec<(String, Type)>, name: &str) -> (r: Option<usize>)
    ensures
        match r {
            Some(i) => first_property(property_views(properties@), name@) == Some(i as int) && i
                < properties.len(),
            None => first_property(property_views(properties@), name@) is None,
        },
{
    let wanted = name.to_owned();
    let ghost views = property_views(properties@);
    let mut i: usize = 0;
    while i < properties.len()
        invariant
            i <= properties.len(),
            wanted@ == name@,
            views == property_views(properties@),
            forall|j: int| 0 <= j < i ==> (#[trigger] views[j]).0 != name@,
        decreases properties.len() - i,
    {
        if properties[i].0 == wanted {
            proof {
                lemma_first_property_from(views, name@, i as int);
                assert(views.skip(i as int)[0] == views[i as int]);
            }
            return Some(i);
        }
        i += 1;
    }
    proof {
        lemma_first_property_from(views, name@, i as int);
        assert(views.skip(i as int).len() == 0);
    }
    None
}

} // verus!
