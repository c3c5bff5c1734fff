//! The built-in pool of prompts: short to very long, English and Chinese, so
//! that a run sees realistic variance in prompt length.

use super::DatasetItem;
use vstd::prelude::*;

verus! {

/// The prompts of the pool, roughly ordered by length.
pub open spec fn pool_texts() -> Seq<Seq<char>> {
    seq![
        "Hi."@,
        "Translate 'hello' to French."@,
        "What is 2+2?"@,
        "你好。"@,
        "Explain the concept of quantum entanglement in simple terms, suitable for a high-school student."@,
        "Write a haiku about the changing seasons, focusing on the transition from summer to autumn."@,
        "List five healthy breakfast options that can be prepared in under ten minutes."@,
        "用一段话解释一下区块链的工作原理,要求通俗易懂,适合完全没有技术背景的读者。"@,
        "Compare and contrast the political systems of the United States and Sweden. Discuss their historical origins, electoral processes, role of political parties, approaches to social welfare, and the relationship between central and local government. Conclude with an assessment of which system you believe better serves its citizens and why."@,
        "You are a senior backend engineer reviewing a pull request that introduces a new caching layer in front of PostgreSQL. The author has chosen a write-through strategy with a 60-second TTL. Identify the main risks of this design (cache stampede, stale data, memory pressure), and propose concrete mitigations. Provide code-level examples where helpful."@,
        "Write a detailed first-person narrative from the perspective of a lighthouse keeper living on a remote island in the early 20th century. The story should span a full year, with the keeper describing the harsh winter storms, the loneliness, the arrival of supply ships in spring, the nesting of seabirds in summer, and the first autumn gales. Include sensory details (the smell of salt, the sound of the foghorn, the feel of wet rope), specific incidents (a ship in distress, a visitor, a personal loss), and reflections on what it means to maintain a steady light through all of it. Aim for approximately 500 words."@,
        "请以一位资深前端工程师的身份,撰写一份关于现代 React 性能优化的技术指南。内容应涵盖:1) 组件渲染优化(memo、useMemo、useCallback 的正确使用场景与陷阱);2) 状态管理(Redux、Zustand、Context 的对比);3) 网络层优化(请求合并、缓存策略、SWR / React Query 的取舍);4) 打包优化(code splitting、tree shaking、动态 import);5) 运行时性能(virtualization、web workers、service worker)。每节都应包含真实项目中的反例与正确做法,并简要说明在何种规模下应该引入该优化。"@,
    ]
}

/// The built-in pool.
pub fn builtin_pool() -> (r: Vec<DatasetItem>)
    ensures
        r@.len() == pool_texts().len(),
        forall|i: int| 0 <= i < r@.len() ==> (#[trigger] r@[i]).plain(pool_texts()[i]),
{
    let mut out: Vec<DatasetItem> = Vec::new();
    out.push(DatasetItem::from_prompt("Hi.".to_owned()));
    out.push(DatasetItem::from_prompt("Translate 'hello' to French.".to_owned()));
    out.push(DatasetItem::from_prompt("What is 2+2?".to_owned()));
    out.push(DatasetItem::from_prompt("你好。".to_owned()));
    out.push(DatasetItem::from_prompt("Explain the concept of quantum entanglement in simple terms, suitable for a high-school student.".to_owned()));
    out.push(DatasetItem::from_prompt("Write a haiku about the changing seasons, focusing on the transition from summer to autumn.".to_owned()));
    out.push(DatasetItem::from_prompt("List five healthy breakfast options that can be prepared in under ten minutes.".to_owned()));
    out.push(DatasetItem::from_prompt("用一段话解释一下区块链的工作原理,要求通俗易懂,适合完全没有技术背景的读者。".to_owned()));
    out.push(DatasetItem::from_prompt("Compare and contrast the political systems of the United States and Sweden. Discuss their historical origins, electoral processes, role of political parties, approaches to social welfare, and the relationship between central and local government. Conclude with an assessment of which system you believe better serves its citizens and why.".to_owned()));
    out.push(DatasetItem::from_prompt("You are a senior backend engineer reviewing a pull request that introduces a new caching layer in front of PostgreSQL. The author has chosen a write-through strategy with a 60-second TTL. Identify the main risks of this design (cache stampede, stale data, memory pressure), and propose concrete mitigations. Provide code-level examples where helpful.".to_owned()));
    out.push(DatasetItem::from_prompt("Write a detailed first-person narrative from the perspective of a lighthouse keeper living on a remote island in the early 20th century. The story should span a full year, with the keeper describing the harsh winter storms, the loneliness, the arrival of supply ships in spring, the nesting of seabirds in summer, and the first autumn gales. Include sensory details (the smell of salt, the sound of the foghorn, the feel of wet rope), specific incidents (a ship in distress, a visitor, a personal loss), and reflections on what it means to maintain a steady light through all of it. Aim for approximately 500 words.".to_owned()));
    out.push(DatasetItem::from_prompt("请以一位资深前端工程师的身份,撰写一份关于现代 React 性能优化的技术指南。内容应涵盖:1) 组件渲染优化(memo、useMemo、useCallback 的正确使用场景与陷阱);2) 状态管理(Redux、Zustand、Context 的对比);3) 网络层优化(请求合并、缓存策略、SWR / React Query 的取舍);4) 打包优化(code splitting、tree shaking、动态 import);5) 运行时性能(virtualization、web workers、service worker)。每节都应包含真实项目中的反例与正确做法,并简要说明在何种规模下应该引入该优化。".to_owned()));
    out
}

} // verus!
