use vstd::prelude::*;

verus! {

/// The strings of a vector, as mathematical sequences of characters.
pub open spec fn strs_view(v: Seq<String>) -> Seq<Seq<char>> {
    v.map_values(|s: String| s@)
}

/// What a stored configuration means: executable, arguments, description.
pub struct RecordView {
    pub qemu_bin: Seq<char>,
    pub args: Seq<Seq<char>>,
    pub desc: Option<Seq<char>>,
}

pub open spec fn opt_view(o: Option<String>) -> Option<Seq<char>> {
    match o {
        Some(s) => Some(s@),
        None => None,
    }
}

/// One saved launch configuration. Its name is not part of it: the name is
/// the key under which the store holds it.
pub struct QemuConfig {
    pub qemu_bin: String,
    pub args: Vec<String>,
    pub desc: Option<String>,
}

impl View for QemuConfig {
    type V = RecordView;

    open spec fn view(&self) -> RecordView {
        RecordView { qemu_bin: self.qemu_bin@, args: strs_view(self.args@), desc: opt_view(self.desc) }
    }
}

/// A copy of a vector of strings, element by element.
pub fn copy_strings(v: &Vec<String>) -> (r: Vec<String>)
    ensures
        strs_view(r@) == strs_view(v@),
{
    let mut r: Vec<String> = Vec::new();
    let mut i: usize = 0;
    while i < v.len()
        invariant
            i <= v.len(),
            r@.len() == i,
            strs_view(r@) == strs_view(v@.subrange(0, i as int)),
        decreases v.len() - i,
    {
        let ghost r0 = r@;
        let c = v[i].clone();
        assert(c@ == v@[i as int]@);
        r.push(c);
        assert(r@ == r0.push(c));
        i = i + 1;
        assert forall|j: int| 0 <= j < i implies #[trigger] strs_view(r@)[j] == strs_view(v@.subrange(0, i as int))[j] by {
            if j < i - 1 {
                assert(strs_view(r0)[j] == strs_view(v@.subrange(0, i - 1))[j]);
            }
        }
        assert(strs_view(r@) =~= strs_view(v@.subrange(0, i as int)));
    }
    assert(v@.subrange(0, v.len() as int) =~= v@);
    r
}

pub fn copy_opt(o: &Option<String>) -> (r: Option<String>)
    ensures
        opt_view(r) == opt_view(*o),
{
    match o {
        Some(s) => Some(s.clone()),
        None => None,
    }
}

impl QemuConfig {
    pub fn new(qemu_bin: String, args: Vec<String>, desc: Option<String>) -> (r: QemuConfig)
        ensures
            r@ == (RecordView { qemu_bin: qemu_bin@, args: strs_view(args@), desc: opt_view(desc) }),
    {
        QemuConfig { qemu_bin, args, desc }
    }

    /// A copy with the same executable, arguments and description.
    pub fn duplicate(&self) -> (r: QemuConfig)
        ensures
            r@ == self@,
    {
        QemuConfig {
            qemu_bin: self.qemu_bin.clone(),
            args: copy_strings(&self.args),
            desc: copy_opt(&self.desc),
        }
    }
}

} // verus!
