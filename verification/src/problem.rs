use vstd::prelude::*;

use crate::level::Level;

verus! {

/// One stored sample: the input piped to the solution and the expected
/// output recorded for it.
#[derive(Debug)]
pub struct TestCase {
    pub input: String,
    pub output: String,
}

/// A fetched problem: its display data and its ordered samples.
#[derive(Debug)]
pub struct Problem {
    pub id: u32,
    pub title: String,
    pub description: String,
    pub input_desc: String,
    pub output_desc: String,
    pub test_cases: Vec<TestCase>,
    pub level: Level,
}

impl Problem {
    /// A fresh problem with no samples yet.
    pub fn new(
        id: u32,
        title: String,
        description: String,
        input_desc: String,
        output_desc: String,
        level: Level,
    ) -> (p: Problem)
        ensures
            p.id == id,
            p.title == title,
            p.description == description,
            p.input_desc == input_desc,
            p.output_desc == output_desc,
            p.test_cases@.len() == 0,
            p.level == level,
    {
        Problem {
            id,
            title,
            description,
            input_desc,
            output_desc,
            test_cases: Vec::new(),
            level,
        }
    }

    /// Appends one sample pair, keeping the stored order.
    pub fn add_test_case(&mut self, input: String, output: String)
        ensures
            final(self).test_cases@ == old(self).test_cases@.push(TestCase { input, output }),
            final(self).id == old(self).id,
            final(self).title == old(self).title,
            final(self).description == old(self).description,
            final(self).input_desc == old(self).input_desc,
            final(self).output_desc == old(self).output_desc,
            final(self).level == old(self).level,
    {
        let test_case = TestCase { input, output };
        self.test_cases.push(test_case);
    }
}

/// The markdown document describing a problem, as written into its
/// directory: the title, the three description sections, and the first
/// sample pair.
pub fn description_markdown(p: &Problem) -> (r: String)
    requires
        p.test_cases@.len() > 0,
    ensures
        r@ == "# "@ + p.title@ + "\n\n## 문제 설명 \n"@ + p.description@ + "\n\n## 입력\n"@
            + p.input_desc@ + "\n\n## 출력\n"@ + p.output_desc@ + "\n\n## 예제 입력\n```\n"@
            + p.test_cases@[0].input@ + "```\n\n## 예제 출력\n```\n"@ + p.test_cases@[0].output@
            + "```\n"@,
{
    let mut r = String::from_str("# ");
    r.append(p.title.as_str());
    r.append("\n\n## 문제 설명 \n");
    r.append(p.description.as_str());
    r.append("\n\n## 입력\n");
    r.append(p.input_desc.as_str());
    r.append("\n\n## 출력\n");
    r.append(p.output_desc.as_str());
    r.append("\n\n## 예제 입력\n```\n");
    r.append(p.test_cases[0].input.as_str());
    r.append("```\n\n## 예제 출력\n```\n");
    r.append(p.test_cases[0].output.as_str());
    r.append("```\n");
    r
}

} // verus!
