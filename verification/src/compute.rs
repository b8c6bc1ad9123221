//! Compute-shader task descriptions: dispatch sizes, buffer bindings and
//! task definitions with shader source, entry point and workgroup size.

use vstd::prelude::*;
use crate::ontology::action::AgentAction;
use crate::ontology::agent::{
    is_simple_action, json_text, object1, object4, object5, reply_view, same_text, unknown_action,
    unknown_action_text,
};
use crate::ontology::json::{
    json_from_bool, json_from_u64, json_from_values, json_of_array, json_of_bool, json_of_entries,
    json_of_str, json_of_u64,
};

verus! {

/// The number of workgroups of `workgroup_size` invocations needed to
/// cover `count` invocations: `ceil(count / workgroup_size)`.
pub open spec fn groups_needed(count: u32, workgroup_size: u32) -> int {
    (count as int + workgroup_size as int - 1) / (workgroup_size as int)
}

/// The workgroups needed cover all invocations, and one workgroup fewer
/// would not.
pub proof fn lemma_groups_cover(count: u32, workgroup_size: u32)
    requires
        workgroup_size > 0,
    ensures
        groups_needed(count, workgroup_size) * workgroup_size >= count,
        (groups_needed(count, workgroup_size) - 1) * workgroup_size < count || count == 0,
        groups_needed(count, workgroup_size) >= 0,
{
    let (c, w) = (count as int, workgroup_size as int);
    vstd::arithmetic::div_mod::lemma_fundamental_div_mod(c, w);
    lemma_div_ceil(c, w, c / w, c % w);
    let g = groups_needed(count, workgroup_size);
    assert(g * w >= c && ((g - 1) * w < c || c == 0) && g >= 0) by (nonlinear_arith)
        requires
            c == w * (c / w) + c % w,
            0 <= c % w < w,
            c >= 0,
            g == if c % w == 0 { c / w } else { c / w + 1 },
            w > 0,
    ;
}

/// Describes a compute dispatch invocation.
#[derive(Debug, Clone, Copy)]
pub struct ComputeDispatch {
    pub workgroups_x: u32,
    pub workgroups_y: u32,
    pub workgroups_z: u32,
}

proof fn lemma_div_ceil(c: int, w: int, q: int, r: int)
    requires
        w > 0,
        0 <= r < w,
        c == w * q + r,
        c >= 0,
    ensures
        (c + w - 1) / w == if r == 0 { q } else { q + 1 },
        r != 0 ==> q < c,
{
    let t = if r == 0 { q } else { q + 1 };
    let rr = if r == 0 { w - 1 } else { r - 1 };
    assert(c + w - 1 == t * w + rr) by (nonlinear_arith)
        requires
            c == w * q + r,
            t == if r == 0 { q } else { q + 1 },
            rr == if r == 0 { w - 1 } else { r - 1 },
    ;
    vstd::arithmetic::div_mod::lemma_fundamental_div_mod_converse(c + w - 1, w, t, rr);
    if r != 0 {
        assert(q < c) by (nonlinear_arith)
            requires
                c == w * q + r,
                r >= 1,
                w >= 2,
                q >= 0,
        ;
    }
}

fn div_ceil_u32(count: u32, workgroup_size: u32) -> (r: u32)
    requires
        workgroup_size > 0,
    ensures
        r == groups_needed(count, workgroup_size),
{
    let q = count / workgroup_size;
    proof {
        let (c, w) = (count as int, workgroup_size as int);
        vstd::arithmetic::div_mod::lemma_fundamental_div_mod(c, w);
        assert(w * (c / w) == w * q);
        lemma_div_ceil(c, w, c / w, c % w);
    }
    if count % workgroup_size == 0 {
        q
    } else {
        q + 1
    }
}

impl ComputeDispatch {
    pub fn new(x: u32, y: u32, z: u32) -> (r: Self)
        ensures
            r.workgroups_x == x,
            r.workgroups_y == y,
            r.workgroups_z == z,
    {
        ComputeDispatch { workgroups_x: x, workgroups_y: y, workgroups_z: z }
    }

    /// A one-dimensional dispatch covering `count` invocations.
    /// The workgroup size must be positive (a zero size divides by zero).
    pub fn linear(count: u32, workgroup_size: u32) -> (r: Self)
        requires
            workgroup_size > 0,
        ensures
            r.workgroups_x == groups_needed(count, workgroup_size),
            r.workgroups_y == 1,
            r.workgroups_z == 1,
    {
        let groups = div_ceil_u32(count, workgroup_size);
        Self::new(groups, 1, 1)
    }

    /// A two-dimensional dispatch covering a `width` × `height` grid with
    /// square workgroups of side `workgroup_size`.
    pub fn grid_2d(width: u32, height: u32, workgroup_size: u32) -> (r: Self)
        requires
            workgroup_size > 0,
        ensures
            r.workgroups_x == groups_needed(width, workgroup_size),
            r.workgroups_y == groups_needed(height, workgroup_size),
            r.workgroups_z == 1,
    {
        let gx = div_ceil_u32(width, workgroup_size);
        let gy = div_ceil_u32(height, workgroup_size);
        Self::new(gx, gy, 1)
    }

    /// The total number of shader invocations for the given workgroup size,
    /// multiplied left to right; every partial product must fit in `u64`.
    pub fn total_invocations(&self, workgroup_size: [u32; 3]) -> (r: u64)
        requires
            self.workgroups_x * workgroup_size[0] <= u64::MAX,
            self.workgroups_x * workgroup_size[0] * self.workgroups_y <= u64::MAX,
            self.workgroups_x * workgroup_size[0] * self.workgroups_y * workgroup_size[1]
                <= u64::MAX,
            self.workgroups_x * workgroup_size[0] * self.workgroups_y * workgroup_size[1]
                * self.workgroups_z <= u64::MAX,
            self.workgroups_x * workgroup_size[0] * self.workgroups_y * workgroup_size[1]
                * self.workgroups_z * workgroup_size[2] <= u64::MAX,
        ensures
            r == self.workgroups_x * workgroup_size[0] * self.workgroups_y * workgroup_size[1]
                * self.workgroups_z * workgroup_size[2],
    {
        let p1 = self.workgroups_x as u64 * workgroup_size[0] as u64;
        let p2 = p1 * self.workgroups_y as u64;
        let p3 = p2 * workgroup_size[1] as u64;
        let p4 = p3 * self.workgroups_z as u64;
        p4 * workgroup_size[2] as u64
    }
}

/// Describes a buffer binding for a compute task.
#[derive(Debug, Clone)]
pub struct ComputeBinding {
    pub name: String,
    pub group: u32,
    pub binding: u32,
    pub read_only: bool,
}

impl ComputeBinding {
    /// A read-write storage buffer binding.
    pub fn storage(name: &str, group: u32, binding: u32) -> (r: Self)
        ensures
            r.name@ == name@,
            r.group == group,
            r.binding == binding,
            !r.read_only,
    {
        ComputeBinding { name: name.to_owned(), group, binding, read_only: false }
    }

    /// A read-only storage buffer binding.
    pub fn read_only(name: &str, group: u32, binding: u32) -> (r: Self)
        ensures
            r.name@ == name@,
            r.group == group,
            r.binding == binding,
            r.read_only,
    {
        ComputeBinding { name: name.to_owned(), group, binding, read_only: true }
    }
}

/// A compute task definition with shader source, bindings, and workgroup size.
pub struct ComputeTask {
    id: String,
    label: String,
    shader_source: String,
    entry_point: String,
    workgroup_size: [u32; 3],
    bindings: Vec<ComputeBinding>,
}

impl ComputeTask {
    pub closed spec fn spec_id(&self) -> Seq<char> {
        self.id@
    }

    pub closed spec fn spec_label(&self) -> Seq<char> {
        self.label@
    }

    pub closed spec fn spec_shader_source(&self) -> Seq<char> {
        self.shader_source@
    }

    pub closed spec fn spec_entry_point(&self) -> Seq<char> {
        self.entry_point@
    }

    pub closed spec fn spec_workgroup_size(&self) -> Seq<u32> {
        self.workgroup_size@
    }

    pub closed spec fn spec_bindings(&self) -> Seq<ComputeBinding> {
        self.bindings@
    }

    /// A task with entry point `main`, workgroup size `[64, 1, 1]` and no bindings.
    pub fn new(id: &str, label: &str, shader_source: &str) -> (r: Self)
        ensures
            r.spec_id() == id@,
            r.spec_label() == label@,
            r.spec_shader_source() == shader_source@,
            r.spec_entry_point() == "main"@,
            r.spec_workgroup_size() == seq![64u32, 1, 1],
            r.spec_bindings().len() == 0,
    {
        let r = ComputeTask {
            id: id.to_owned(),
            label: label.to_owned(),
            shader_source: shader_source.to_owned(),
            entry_point: "main".to_owned(),
            workgroup_size: [64, 1, 1],
            bindings: Vec::new(),
        };
        assert(r.workgroup_size@ =~= seq![64u32, 1, 1]);
        r
    }

    /// Replaces the entry point.
    pub fn entry_point(self, entry: &str) -> (r: Self)
        ensures
            r.spec_entry_point() == entry@,
            r.spec_id() == self.spec_id(),
            r.spec_label() == self.spec_label(),
            r.spec_shader_source() == self.spec_shader_source(),
            r.spec_workgroup_size() == self.spec_workgroup_size(),
            r.spec_bindings() == self.spec_bindings(),
    {
        let mut s = self;
        s.entry_point = entry.to_owned();
        s
    }

    /// Replaces the workgroup size.
    pub fn workgroup_size(self, x: u32, y: u32, z: u32) -> (r: Self)
        ensures
            r.spec_workgroup_size() == seq![x, y, z],
            r.spec_entry_point() == self.spec_entry_point(),
            r.spec_id() == self.spec_id(),
            r.spec_label() == self.spec_label(),
            r.spec_shader_source() == self.spec_shader_source(),
            r.spec_bindings() == self.spec_bindings(),
    {
        let mut s = self;
        s.workgroup_size = [x, y, z];
        assert(s.workgroup_size@ =~= seq![x, y, z]);
        s
    }

    /// Appends a buffer binding.
    pub fn binding(self, binding: ComputeBinding) -> (r: Self)
        ensures
            r.spec_bindings() == self.spec_bindings().push(binding),
            r.spec_workgroup_size() == self.spec_workgroup_size(),
            r.spec_entry_point() == self.spec_entry_point(),
            r.spec_id() == self.spec_id(),
            r.spec_label() == self.spec_label(),
            r.spec_shader_source() == self.spec_shader_source(),
    {
        let mut s = self;
        s.bindings.push(binding);
        s
    }

    pub fn id(&self) -> (r: &str)
        ensures
            r@ == self.spec_id(),
    {
        self.id.as_str()
    }

    pub fn label(&self) -> (r: &str)
        ensures
            r@ == self.spec_label(),
    {
        self.label.as_str()
    }

    pub fn shader_source(&self) -> (r: &str)
        ensures
            r@ == self.spec_shader_source(),
    {
        self.shader_source.as_str()
    }

    pub fn entry(&self) -> (r: &str)
        ensures
            r@ == self.spec_entry_point(),
    {
        self.entry_point.as_str()
    }

    pub fn workgroup(&self) -> (r: [u32; 3])
        ensures
            r@ == self.spec_workgroup_size(),
    {
        self.workgroup_size
    }

    pub fn bindings(&self) -> (r: &[ComputeBinding])
        ensures
            r@ == self.spec_bindings(),
    {
        self.bindings.as_slice()
    }

    /// The actions an agent can invoke: "dispatch" and "get_bindings".
    pub fn actions(&self) -> (r: Vec<AgentAction>)
        ensures
            r@.len() == 2,
            is_simple_action(r@[0], "dispatch"@, "Execute the compute task"@, true),
            is_simple_action(r@[1], "get_bindings"@, "List buffer bindings"@, false),
    {
        vec![
            AgentAction::simple("dispatch", "Execute the compute task", true),
            AgentAction::simple("get_bindings", "List buffer bindings", false),
        ]
    }

    /// The state an agent sees: id, label, entry point, workgroup size and
    /// the bindings.
    pub fn agent_state(&self) -> (r: serde_json::Value)
        ensures
            r == json_of_entries(
                seq![
                    ("id"@, json_of_str(self.spec_id())),
                    ("label"@, json_of_str(self.spec_label())),
                    ("entry_point"@, json_of_str(self.spec_entry_point())),
                    ("workgroup_size"@, json_of_array(self.spec_workgroup_size().map_values(|x: u32| json_of_u64(x as u64)))),
                    ("bindings"@, json_of_array(self.spec_bindings().map_values(|b: ComputeBinding| binding_json(b)))),
                ],
            ),
    {
        let ws = vec![
            json_from_u64(self.workgroup_size[0] as u64),
            json_from_u64(self.workgroup_size[1] as u64),
            json_from_u64(self.workgroup_size[2] as u64),
        ];
        proof {
            assert(ws@ =~= self.workgroup_size@.map_values(|x: u32| json_of_u64(x as u64)));
        }
        let mut bs: Vec<serde_json::Value> = Vec::new();
        let mut i: usize = 0;
        while i < self.bindings.len()
            invariant
                i <= self.bindings@.len(),
                bs@ =~= self.bindings@.subrange(0, i as int).map_values(|b: ComputeBinding| binding_json(b)),
            decreases self.bindings.len() - i,
        {
            let b = &self.bindings[i];
            bs.push(
                object4(
                    "name",
                    json_text(b.name.as_str()),
                    "group",
                    json_from_u64(b.group as u64),
                    "binding",
                    json_from_u64(b.binding as u64),
                    "read_only",
                    json_from_bool(b.read_only),
                ),
            );
            proof {
                assert(self.bindings@.subrange(0, i + 1) =~= self.bindings@.subrange(0, i as int).push(self.bindings@[i as int]));
            }
            i = i + 1;
        }
        proof {
            assert(self.bindings@.subrange(0, self.bindings@.len() as int) =~= self.bindings@);
        }
        object5(
            "id",
            json_text(self.id.as_str()),
            "label",
            json_text(self.label.as_str()),
            "entry_point",
            json_text(self.entry_point.as_str()),
            "workgroup_size",
            json_from_values(ws),
            "bindings",
            json_from_values(bs),
        )
    }

    /// Carries out an agent action (see `compute_task_action`); the task is
    /// left as it was.
    pub fn execute_action(&mut self, action: &str, _params: &serde_json::Value) -> (r: Result<
        serde_json::Value,
        String,
    >)
        ensures
            reply_view(r) == compute_task_action(old(self).spec_bindings(), action@),
            *final(self) == *old(self),
    {
        if same_text(action, "get_bindings") {
            let mut names: Vec<serde_json::Value> = Vec::new();
            let mut i: usize = 0;
            while i < self.bindings.len()
                invariant
                    i <= self.bindings@.len(),
                    names@ =~= self.bindings@.subrange(0, i as int).map_values(|b: ComputeBinding| json_of_str(b.name@)),
                decreases self.bindings.len() - i,
            {
                names.push(json_text(self.bindings[i].name.as_str()));
                proof {
                    assert(self.bindings@.subrange(0, i + 1) =~= self.bindings@.subrange(0, i as int).push(self.bindings@[i as int]));
                }
                i = i + 1;
            }
            proof {
                assert(self.bindings@.subrange(0, self.bindings@.len() as int) =~= self.bindings@);
            }
            Ok(object1("bindings", json_from_values(names)))
        } else if same_text(action, "dispatch") {
            Ok(object1("status", json_text("requires_gpu_context")))
        } else {
            Err(unknown_action(action))
        }
    }

    /// The identifier an agent addresses the task by.
    pub fn agent_id(&self) -> (r: Option<&str>)
        ensures
            r matches Some(s) && s@ == self.spec_id(),
    {
        Some(self.id.as_str())
    }
}

/// The JSON form `{"name", "group", "binding", "read_only"}` of a binding.
pub open spec fn binding_json(b: ComputeBinding) -> serde_json::Value {
    json_of_entries(
        seq![
            ("name"@, json_of_str(b.name@)),
            ("group"@, json_of_u64(b.group as u64)),
            ("binding"@, json_of_u64(b.binding as u64)),
            ("read_only"@, json_of_bool(b.read_only)),
        ],
    )
}

/// The reply of a compute task to an agent action. "get_bindings" lists
/// the binding names; "dispatch" answers that a GPU context is needed to
/// run the task; any other action is refused. No action changes the task.
pub open spec fn compute_task_action(bindings: Seq<ComputeBinding>, action: Seq<char>) -> Result<
    serde_json::Value,
    Seq<char>,
> {
    if action == "get_bindings"@ {
        Ok(
            json_of_entries(
                seq![("bindings"@, json_of_array(bindings.map_values(|b: ComputeBinding| json_of_str(b.name@))))],
            ),
        )
    } else if action == "dispatch"@ {
        Ok(json_of_entries(seq![("status"@, json_of_str("requires_gpu_context"@))]))
    } else {
        Err(unknown_action_text(action))
    }
}

/// "get_bindings" lists the name of every binding, in the order the
/// bindings were added: its reply is `{"bindings": [...]}` with one entry
/// per binding, entry `i` being the name of binding `i` as a JSON string.
/// "dispatch" answers `{"status": "requires_gpu_context"}`.
pub proof fn lemma_get_bindings_lists_every_name(bindings: Seq<ComputeBinding>)
    ensures
        compute_task_action(bindings, "get_bindings"@) == Ok::<serde_json::Value, Seq<char>>(
            json_of_entries(
                seq![
                    ("bindings"@, json_of_array(
                        Seq::new(bindings.len(), |i: int| json_of_str(bindings[i].name@)),
                    )),
                ],
            ),
        ),
        compute_task_action(bindings, "dispatch"@) == Ok::<serde_json::Value, Seq<char>>(
            json_of_entries(seq![("status"@, json_of_str("requires_gpu_context"@))]),
        ),
{
    reveal_strlit("get_bindings");
    reveal_strlit("dispatch");
    assert("get_bindings"@.len() != "dispatch"@.len());
    assert(bindings.map_values(|b: ComputeBinding| json_of_str(b.name@)) =~= Seq::new(
        bindings.len(),
        |i: int| json_of_str(bindings[i].name@),
    ));
}

} // verus!
