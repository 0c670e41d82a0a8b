//! The tools of a request, as a chat request offers them.

use crate::protocols::common::{Tool, ToolView};
use crate::protocols::responses::{ResponseTool, ResponseToolType, ResponseToolView};
use vstd::prelude::*;

verus! {

/// Whether tools of this kind are handed on; of MCP tools `include_mcp` decides.
pub open spec fn is_extracted(tool_type: ResponseToolType, include_mcp: bool) -> bool {
    match tool_type {
        ResponseToolType::Function => true,
        ResponseToolType::Mcp => include_mcp,
        _ => false,
    }
}

/// The chat tool for one tool of a request, if it is handed on and describes a function.
pub open spec fn extracted_tool(tool: ResponseToolView, include_mcp: bool) -> Option<ToolView> {
    match tool.function {
        Some(function) if is_extracted(tool.tool_type, include_mcp) => Some(
            ToolView { tool_type: "function"@, function },
        ),
        _ => None,
    }
}

/// The chat tools for the tools of a request, in their order.
pub open spec fn extracted_tools(tools: Seq<ResponseToolView>, include_mcp: bool) -> Seq<ToolView> {
    tools.filter_map(|tool: ResponseToolView| extracted_tool(tool, include_mcp))
}

/// Extracts the function tools, and with `include_mcp` the MCP tools, that carry a function.
pub fn extract_tools_from_response_tools(
    response_tools: Option<&[ResponseTool]>,
    include_mcp: bool,
) -> (result: Vec<Tool>)
    ensures
        result.deep_view() == (match response_tools {
            Some(tools) => extracted_tools(tools.deep_view(), include_mcp),
            None => seq![],
        }),
{
    let mut result: Vec<Tool> = Vec::new();
    if let Some(tools) = response_tools {
        let ghost all = tools.deep_view();
        let ghost convert = |tool: ResponseToolView| extracted_tool(tool, include_mcp);
        for i in 0..tools.len()
            invariant
                all == tools.deep_view(),
                convert == (|tool: ResponseToolView| extracted_tool(tool, include_mcp)),
                result.deep_view() == all.take(i as int).filter_map(convert),
        {
            let tool = &tools[i];
            let included = match tool.tool_type {
                ResponseToolType::Function => true,
                ResponseToolType::Mcp => include_mcp,
                _ => false,
            };
            proof {
                all.lemma_filter_map_take_succ(convert, i as int);
                assert(all[i as int] == tool.deep_view());
            }
            let ghost before = result.deep_view();
            if included {
                if let Some(function) = &tool.function {
                    result.push(
                        Tool { tool_type: "function".to_string(), function: function.clone() },
                    );
                    assert(result.deep_view() == before.push(result@.last().deep_view()));
                }
            }
        }
        assert(all.take(all.len() as int) == all);
    }
    result
}

} // verus!
