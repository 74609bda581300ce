//! Names: namespaces and fully qualified names.

use vstd::prelude::*;

verus! {

/// A local name.
pub type Name = String;

/// The views of a sequence of strings.
pub open spec fn strings_view(v: Seq<String>) -> Seq<Seq<char>> {
    v.map_values(|s: String| s@)
}

/// The views of a sequence of string slices.
pub open spec fn strs_view(v: Seq<&str>) -> Seq<Seq<char>> {
    v.map_values(|s: &str| s@)
}

/// `parts` joined by `sep`, as `[..].join(sep)` does.
pub open spec fn join(parts: Seq<Seq<char>>, sep: Seq<char>) -> Seq<char>
    decreases parts.len(),
{
    if parts.len() == 0 {
        Seq::empty()
    } else if parts.len() == 1 {
        parts[0]
    } else {
        join(parts.drop_last(), sep) + sep + parts.last()
    }
}

/// The `k`-th element of `s` counted from its end.
pub open spec fn rev_at(s: Seq<Seq<char>>, k: int) -> Seq<char> {
    s[s.len() - 1 - k]
}

/// `a` is a suffix of `b`.
pub open spec fn is_suffix_of(a: Seq<Seq<char>>, b: Seq<Seq<char>>) -> bool {
    a.len() <= b.len() && b.subrange(b.len() - a.len(), b.len() as int) == a
}

/// Copies a string; the copy has the same characters.
pub fn copy_string(s: &String) -> (r: String)
    ensures
        r@ == s@,
{
    s.clone()
}

/// Compares two strings by their characters.
pub fn string_eq(a: &String, b: &String) -> (r: bool)
    ensures
        r == (a@ == b@),
{
    *a == *b
}

/// Copies a vector of strings.
pub fn copy_strings(v: &Vec<String>) -> (r: Vec<String>)
    ensures
        strings_view(r@) == strings_view(v@),
{
    let mut r: Vec<String> = Vec::new();
    let mut i: usize = 0;
    while i < v.len()
        invariant
            i <= v.len(),
            strings_view(r@) =~= strings_view(v@.subrange(0, i as int)),
        decreases v.len() - i,
    {
        r.push(copy_string(&v[i]));
        i = i + 1;
        assert(strings_view(v@.subrange(0, i as int)) =~= strings_view(
            v@.subrange(0, (i - 1) as int),
        ).push(v@[i - 1]@));
    }
    assert(v@.subrange(0, v.len() as int) =~= v@);
    r
}

/// Compares two vectors of strings element by element.
pub fn strings_eq(a: &Vec<String>, b: &Vec<String>) -> (r: bool)
    ensures
        r == (strings_view(a@) == strings_view(b@)),
{
    if a.len() != b.len() {
        proof {
            assert(strings_view(a@).len() != strings_view(b@).len());
        }
        return false;
    }
    let mut i: usize = 0;
    while i < a.len()
        invariant
            i <= a.len(),
            a.len() == b.len(),
            forall|j: int| 0 <= j < i ==> a@[j]@ == b@[j]@,
        decreases a.len() - i,
    {
        if !string_eq(&a[i], &b[i]) {
            proof {
                assert(strings_view(a@)[i as int] != strings_view(b@)[i as int]);
            }
            return false;
        }
        i = i + 1;
    }
    assert(strings_view(a@) =~= strings_view(b@));
    true
}

/// Builds owned strings from string slices.
pub fn strs_to_strings(v: &[&str]) -> (r: Vec<String>)
    ensures
        strings_view(r@) == strs_view(v@),
{
    let mut r: Vec<String> = Vec::new();
    let mut i: usize = 0;
    while i < v.len()
        invariant
            i <= v.len(),
            strings_view(r@) =~= strs_view(v@.subrange(0, i as int)),
        decreases v.len() - i,
    {
        r.push(String::from_str(v[i]));
        i = i + 1;
        assert(strs_view(v@.subrange(0, i as int)) =~= strs_view(v@.subrange(0, (i - 1) as int)).push(
            v@[i - 1]@,
        ));
    }
    assert(v@.subrange(0, v.len() as int) =~= v@);
    r
}

/// The strings with `sep` between each two, as `[String]::join` gives them.
pub fn join_strings(v: &Vec<String>, sep: &str) -> (r: String)
    ensures
        r@ == join(strings_view(v@), sep@),
{
    let ghost parts = strings_view(v@);
    let mut r = String::new();
    let mut i: usize = 0;
    while i < v.len()
        invariant
            i <= v.len(),
            parts == strings_view(v@),
            r@ == join(parts.subrange(0, i as int), sep@),
        decreases v.len() - i,
    {
        let ghost prev = parts.subrange(0, i as int);
        let ghost next = parts.subrange(0, i + 1);
        assert(next.drop_last() =~= prev);
        if i > 0 {
            r.append(sep);
        } else {
            assert(prev =~= Seq::<Seq<char>>::empty());
            assert(r@ =~= Seq::<char>::empty());
        }
        r.append(v[i].as_str());
        i = i + 1;
        proof {
            if i == 1 {
                assert(r@ =~= next[0]);
            } else {
                assert(r@ =~= join(prev, sep@) + sep@ + next.last());
            }
        }
    }
    assert(parts.subrange(0, v.len() as int) =~= parts);
    r
}

/// A namespace: the path of enclosing names. Empty means local.
pub struct NameSpace {
    pub names: Vec<String>,
}

impl View for NameSpace {
    type V = Seq<Seq<char>>;

    open spec fn view(&self) -> Seq<Seq<char>> {
        strings_view(self.names@)
    }
}

impl NameSpace {
    /// The local namespace.
    pub fn local() -> (r: Self)
        ensures
            r@ == Seq::<Seq<char>>::empty(),
    {
        let r = Self { names: Vec::new() };
        assert(r@ =~= Seq::<Seq<char>>::empty());
        r
    }

    pub fn new(names: Vec<String>) -> (r: Self)
        ensures
            r@ == strings_view(names@),
    {
        Self { names }
    }

    pub fn is_local(&self) -> (r: bool)
        ensures
            r == (self@.len() == 0),
    {
        self.names.len() == 0
    }

    /// The namespace written with `::` between its names.
    pub fn to_string(&self) -> (r: String)
        ensures
            r@ == join(self@, "::"@),
    {
        join_strings(&self.names, "::")
    }

    /// Whether `self` is a suffix of `rhs`, e.g. `Array` of `Std::Array`.
    pub fn is_suffix(&self, rhs: &NameSpace) -> (r: bool)
        ensures
            r == is_suffix_of(self@, rhs@),
    {
        let n = self.names.len();
        let m = rhs.names.len();
        if n > m {
            return false;
        }
        let mut i: usize = 0;
        while i < n
            invariant
                n == self@.len(),
                m == rhs@.len(),
                n <= m,
                i <= n,
                forall|k: int| 0 <= k < i ==> #[trigger] rev_at(self@, k) == rev_at(rhs@, k),
            decreases n - i,
        {
            if !string_eq(&self.names[n - 1 - i], &rhs.names[m - i - 1]) {
                proof {
                    let k = n - 1 - i;
                    assert(rhs@.subrange(m - n, m as int)[k] == rhs@[m - 1 - i]);
                    assert(rev_at(self@, i as int) != rev_at(rhs@, i as int));
                }
                return false;
            }
            i = i + 1;
        }
        assert forall|k: int| 0 <= k < n implies rhs@.subrange(m - n, m as int)[k] == self@[k] by {
            let j = n - 1 - k;
            assert(rev_at(self@, j) == rev_at(rhs@, j));
        }
        assert(rhs@.subrange(m - n, m as int) =~= self@);
        true
    }

    /// Compares two namespaces name by name.
    pub fn is_equal(&self, other: &NameSpace) -> (r: bool)
        ensures
            r == (self@ == other@),
    {
        strings_eq(&self.names, &other.names)
    }

    pub fn copy(&self) -> (r: NameSpace)
        ensures
            r@ == self@,
    {
        NameSpace { names: copy_strings(&self.names) }
    }

    /// The module: the first name of the namespace.
    pub fn module(&self) -> (r: Name)
        requires
            self@.len() > 0,
        ensures
            r@ == self@[0],
    {
        copy_string(&self.names[0])
    }
}

/// Every namespace is a suffix of itself.
pub proof fn lemma_is_suffix_reflexive(a: Seq<Seq<char>>)
    ensures
        is_suffix_of(a, a),
{
    assert(a.subrange(0, a.len() as int) =~= a);
}

/// A suffix of a suffix is a suffix.
pub proof fn lemma_is_suffix_transitive(a: Seq<Seq<char>>, b: Seq<Seq<char>>, c: Seq<Seq<char>>)
    requires
        is_suffix_of(a, b),
        is_suffix_of(b, c),
    ensures
        is_suffix_of(a, c),
{
    assert(c.subrange(c.len() - a.len(), c.len() as int) =~= b.subrange(
        b.len() - a.len(),
        b.len() as int,
    ));
}

/// The local namespace is a suffix of every namespace.
pub proof fn lemma_local_is_suffix(a: Seq<Seq<char>>)
    ensures
        is_suffix_of(Seq::<Seq<char>>::empty(), a),
{
    assert(a.subrange(a.len() as int, a.len() as int) =~= Seq::<Seq<char>>::empty());
}

/// Suffixes in both directions are equal namespaces.
pub proof fn lemma_is_suffix_antisymmetric(a: Seq<Seq<char>>, b: Seq<Seq<char>>)
    requires
        is_suffix_of(a, b),
        is_suffix_of(b, a),
    ensures
        a == b,
{
    assert(b.subrange(0, b.len() as int) =~= b);
}

/// The abstract value of a full name.
pub struct SFullName {
    pub namespace: Seq<Seq<char>>,
    pub name: Seq<char>,
}

/// A name with its namespace, e.g. `Std::Array::fill`.
pub struct FullName {
    pub namespace: NameSpace,
    pub name: Name,
}

impl View for FullName {
    type V = SFullName;

    open spec fn view(&self) -> SFullName {
        SFullName { namespace: self.namespace@, name: self.name@ }
    }
}

/// How a full name is printed: the namespace, `::`, then the name; a local name alone.
pub open spec fn full_name_str(n: SFullName) -> Seq<char> {
    if n.namespace.len() == 0 {
        n.name
    } else {
        join(n.namespace, "::"@) + "::"@ + n.name
    }
}

impl FullName {
    pub fn from_strs(namespace: &[&str], name: &str) -> (r: FullName)
        ensures
            r@ == (SFullName { namespace: strs_view(namespace@), name: name@ }),
    {
        FullName { namespace: NameSpace::new(strs_to_strings(namespace)), name: String::from_str(name) }
    }

    pub fn local(name: &str) -> (r: FullName)
        ensures
            r@ == (SFullName { namespace: Seq::empty(), name: name@ }),
    {
        FullName { namespace: NameSpace::local(), name: String::from_str(name) }
    }

    pub fn to_string(&self) -> (r: String)
        ensures
            r@ == full_name_str(self@),
    {
        let mut r = self.namespace.to_string();
        if self.namespace.names.len() > 0 {
            r.append("::");
        }
        r.append(self.name.as_str());
        proof {
            if self.namespace@.len() == 0 {
                assert(r@ =~= self.name@);
            }
        }
        r
    }

    /// Compares two full names by their parts.
    pub fn is_equal(&self, other: &FullName) -> (r: bool)
        ensures
            r == (self@ == other@),
    {
        self.namespace.is_equal(&other.namespace) && string_eq(&self.name, &other.name)
    }

    pub fn copy(&self) -> (r: FullName)
        ensures
            r@ == self@,
    {
        FullName { namespace: self.namespace.copy(), name: copy_string(&self.name) }
    }

    /// The module the name belongs to: the first name of its namespace.
    pub fn module(&self) -> (r: Name)
        requires
            self@.namespace.len() > 0,
        ensures
            r@ == self@.namespace[0],
    {
        self.namespace.module()
    }
}

} // verus!
