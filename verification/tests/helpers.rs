use picodata::helpers::{
    check_transformation, sql_to_ir, sql_to_ir_without_bind, sql_to_optimized_ir, QueryEngine, Snapshot,
};

/// An engine whose plans are the list of what was done to them.
struct Recorder;

impl QueryEngine for Recorder {
    type Value = u8;
    type Plan = Vec<String>;
    type ExecutionPlan = Vec<String>;
    type NodeId = usize;
    type SyntaxPlan = String;
    type OrderedNodes = String;
    type SyntaxData = String;
    type SqlOptions = u8;
    type Sql = String;
    type Attachment = ();
    type Error = String;

    fn transform_into_plan(&self, query: &str) -> Result<Vec<String>, String> {
        Ok(vec![format!("parse {query}")])
    }

    fn bind_params(&self, mut plan: Vec<String>, params: Vec<u8>) -> Result<Vec<String>, String> {
        plan.push(format!("bind {params:?}"));
        Ok(plan)
    }

    fn apply_options(&self, mut plan: Vec<String>) -> Result<Vec<String>, String> {
        plan.push("options".to_string());
        Ok(plan)
    }

    fn optimize(&self, mut plan: Vec<String>) -> Result<Vec<String>, String> {
        plan.push("optimize".to_string());
        Ok(plan)
    }

    fn execution_plan(&self, mut plan: Vec<String>) -> Vec<String> {
        plan.push("execute".to_string());
        plan
    }

    fn get_top(&self, plan: &Vec<String>) -> Result<usize, String> {
        Ok(plan.len())
    }

    fn syntax_plan(
        &self,
        plan: &Vec<String>,
        top: usize,
        snapshot: Snapshot,
    ) -> Result<String, String> {
        Ok(format!("{}; {snapshot:?} from {top}", plan.join("; ")))
    }

    fn ordered_nodes(&self, tree: String) -> Result<String, String> {
        Ok(format!("{tree}; order"))
    }

    fn to_syntax_data(&self, nodes: &String) -> Result<String, String> {
        Ok(format!("{nodes}; data"))
    }

    fn to_sql(
        &self,
        plan: &Vec<String>,
        nodes: &String,
        name_base: &str,
        options: Option<u8>,
    ) -> Result<(String, ()), String> {
        Ok((format!("{nodes}; {} {name_base:?} {options:?}", plan.len()), ()))
    }
}

#[test]
fn queries_go_through_the_stages_in_order() {
    assert_eq!(sql_to_ir_without_bind(&Recorder, "q"), vec!["parse q"]);
    assert_eq!(sql_to_ir(&Recorder, "q", vec![1, 2]), vec!["parse q", "bind [1, 2]", "options"]);
    assert_eq!(
        sql_to_optimized_ir(&Recorder, "q", vec![]),
        vec!["parse q", "bind []", "options", "optimize"]
    );
}

#[test]
fn a_transformation_works_on_the_bound_plan() {
    let sql = check_transformation(&Recorder, "q", vec![7], |mut plan: Vec<String>| {
        plan.push("transform".to_string());
        plan
    });
    assert_eq!(
        sql,
        "parse q; bind [7]; options; transform; execute; Latest from 5; order; data; 5 \"\" None"
    );
}

#[test]
fn sql_depends_on_the_plan_left_alone() {
    let plan = || sql_to_optimized_ir(&Recorder, "a", vec![1]);
    let first = check_transformation(&Recorder, "a", vec![1], |mut ir: Vec<String>| {
        ir.push("optimize".to_string());
        ir
    });
    let second = check_transformation(&Recorder, "b", vec![], |_| plan());
    assert_eq!(first, second);
}
